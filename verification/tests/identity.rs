use blitz::error::Error;
use blitz::identity::{
    char_is_whitespace, configs_file_path, controller_name, device_path, name_attribute_path, trim,
};
use blitz::text::{join, strip_prefixes};

#[test]
fn device_path_is_below_the_input_directory() {
    assert_eq!(device_path("event5"), "/dev/input/event5");
    assert_eq!(device_path(""), "/dev/input/");
}

#[test]
fn name_attribute_is_beside_the_device() {
    assert_eq!(name_attribute_path("/dev/input/event5"), "/sys/class/input/event5/device/name");
    assert_eq!(name_attribute_path(&device_path("event12")), "/sys/class/input/event12/device/name");
}

#[test]
fn name_attribute_of_odd_paths() {
    assert_eq!(name_attribute_path("event5"), "/sys/class/input/event5/device/name");
    assert_eq!(name_attribute_path("/dev/input/"), "/sys/class/input//device/name");
    assert_eq!(name_attribute_path(""), "/sys/class/input//device/name");
    assert_eq!(
        name_attribute_path("/dev/input//dev/input/event5"),
        "/sys/class/input/event5/device/name"
    );
    assert_eq!(name_attribute_path("/dev/input"), "/sys/class/input//dev/input/device/name");
    assert_eq!(
        name_attribute_path("x/dev/input/event5"),
        "/sys/class/input/x/dev/input/event5/device/name"
    );
}

#[test]
fn prefixes_are_stripped_as_std_strips_them() {
    let samples = [
        "",
        "/",
        "/dev/input/",
        "/dev/input/event0",
        "/dev/input//dev/input//dev/input/event1",
        "/dev/input/é/dev/input/",
        "dev/input/event0",
        "/dev/input",
        "/dev/inpu/dev/input/",
        "/DEV/INPUT/event0",
        "ab",
        "abab",
        "ababa",
        "aba",
    ];
    for prefix in ["/dev/input/", "ab", "a", "é", ""] {
        for sample in samples {
            assert_eq!(strip_prefixes(sample, prefix), sample.trim_start_matches(prefix));
        }
    }
}

#[test]
fn empty_prefix_strips_nothing() {
    assert_eq!(strip_prefixes("abc", ""), "abc");
    assert_eq!(strip_prefixes("", ""), "");
}

#[test]
fn whitespace_is_what_std_calls_whitespace() {
    for code in 0u32..=0x10FFFF {
        if let Some(c) = char::from_u32(code) {
            assert_eq!(char_is_whitespace(c), c.is_whitespace(), "U+{:04X}", code);
        }
    }
}

#[test]
fn trim_takes_off_surrounding_whitespace() {
    assert_eq!(trim("Xbox Wireless Controller\n"), "Xbox Wireless Controller");
    assert_eq!(trim("  \t padded name \r\n"), "padded name");
    assert_eq!(trim(""), "");
    assert_eq!(trim(" \n\t "), "");
    assert_eq!(trim("x"), "x");
}

#[test]
fn trim_agrees_with_std() {
    let samples = [
        "",
        " ",
        "a",
        " a",
        "a ",
        " a b ",
        "\u{3000}wide\u{2003}",
        "\u{feff}bom\u{200b}",
        "\u{85}next line\u{a0}",
        "é\n",
        "\n\n\n",
        "in\nside",
        "\u{1680}\u{2028}\u{2029}\u{202f}\u{205f}x\u{2000}\u{200a}",
        "\u{180e}mongolian\u{180e}",
    ];
    for sample in samples {
        assert_eq!(trim(sample), sample.trim());
    }
}

#[test]
fn controller_name_is_the_trimmed_contents() {
    assert_eq!(controller_name(Ok("Sony DualShock 4\n".to_string())), Ok("Sony DualShock 4".to_string()));
    assert_eq!(controller_name(Ok(String::new())), Ok(String::new()));
}

#[test]
fn controller_name_fails_with_the_cause() {
    let cause = "No such file or directory (os error 2)";
    let error = controller_name(Err(cause.to_string())).unwrap_err();
    assert_eq!(error, Error::NameLookup(cause.to_string()));
    assert_eq!(error.message(), "Failed to read controller name: No such file or directory (os error 2)");
}

#[test]
fn configs_file_is_below_the_home_directory() {
    assert_eq!(configs_file_path(Some("/home/me")), "/home/me/.config/blitz/controller-configs.json");
    assert_eq!(configs_file_path(Some("/home/me/")), "/home/me/.config/blitz/controller-configs.json");
    assert_eq!(configs_file_path(None), "./.config/blitz/controller-configs.json");
}

#[test]
fn configs_file_path_joins_as_std_joins() {
    for home in ["/home/me", "/home/me/", "/", "", ".", "rel/dir", "/héme", "//", "a//"] {
        let expected = std::path::PathBuf::from(home).join(".config/blitz/controller-configs.json");
        assert_eq!(configs_file_path(Some(home)), expected.to_str().unwrap());
    }
    let expected = std::path::PathBuf::from(".").join(".config/blitz/controller-configs.json");
    assert_eq!(configs_file_path(None), expected.to_str().unwrap());
}

#[test]
fn join_puts_the_separator_between_items() {
    let items: Vec<String> = vec!["a".to_string(), "b".to_string(), "c".to_string()];
    assert_eq!(join(&items, ","), "a,b,c");
    assert_eq!(join(&items, ""), "abc");
    assert_eq!(join(&items, " - "), "a - b - c");
    assert_eq!(join(&vec!["a".to_string()], ","), "a");
    assert_eq!(join(&Vec::new(), ","), "");
    assert_eq!(join(&vec![String::new(), String::new()], ","), ",");
    for items in [vec![], vec!["x".to_string()], vec!["x".to_string(), "".to_string(), "é".to_string()]] {
        assert_eq!(join(&items, ", "), items.join(", "));
    }
}

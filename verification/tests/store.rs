use blitz::error::Error;
use blitz::mapping::{AxisMapping, ButtonMapping, ControllerMapping};
use blitz::store::{delete, get, has_mapping, list_all, save, Deletion, MappingStore, StoreFile};

fn button(virtual_button: &str, physical_button: &str) -> ButtonMapping {
    ButtonMapping {
        virtual_button: virtual_button.to_string(),
        physical_button: physical_button.to_string(),
    }
}

fn axis(virtual_axis: &str, physical_axis: &str) -> AxisMapping {
    AxisMapping { virtual_axis: virtual_axis.to_string(), physical_axis: physical_axis.to_string() }
}

fn pad_buttons() -> Vec<ButtonMapping> {
    vec![button("A", "BTN_SOUTH"), button("B", "BTN_EAST"), button("A", "BTN_NORTH")]
}

fn pad_axes() -> Vec<AxisMapping> {
    vec![axis("X1", "ABS_X"), axis("Y1", "ABS_Y")]
}

fn pad(name: &str) -> ControllerMapping {
    ControllerMapping { name: name.to_string(), buttons: pad_buttons(), axes: pad_axes() }
}

/// The file as the next operation finds it after a save.
fn written(file: StoreFile, name: &str, buttons: Vec<ButtonMapping>, axes: Vec<AxisMapping>) -> StoreFile {
    StoreFile::Present(save(file, name, buttons, axes).store)
}

#[test]
fn new_store_is_empty() {
    let store = MappingStore::new();
    assert_eq!(store.len(), 0);
    assert!(!store.contains("pad"));
    assert_eq!(store.get("pad"), None);
    assert!(store.list().is_empty());
    assert!(store.list_names().is_empty());
}

#[test]
fn put_stores_and_overwrites() {
    let store = MappingStore::new().put("pad".to_string(), pad("pad"));
    assert_eq!(store.len(), 1);
    assert!(store.contains("pad"));
    assert_eq!(store.get("pad"), Some(pad("pad")));

    let other = ControllerMapping { name: "pad".to_string(), buttons: vec![], axes: pad_axes() };
    let store = store.put("pad".to_string(), other.clone());
    assert_eq!(store.len(), 1);
    assert_eq!(store.get("pad"), Some(other));
}

#[test]
fn put_keeps_one_mapping_per_name() {
    let mut store = MappingStore::new();
    for round in 0..3 {
        for name in ["a", "b", "c"] {
            let mapping = ControllerMapping {
                name: name.to_string(),
                buttons: vec![button("A", &format!("BTN_{}", round))],
                axes: vec![],
            };
            store = store.put(name.to_string(), mapping);
        }
    }
    assert_eq!(store.len(), 3);
    assert_eq!(store.list_names(), vec!["a".to_string(), "b".to_string(), "c".to_string()]);
    assert_eq!(store.get("b").unwrap().buttons, vec![button("A", "BTN_2")]);
}

#[test]
fn names_are_compared_exactly() {
    let store = MappingStore::new().put("Pad".to_string(), pad("Pad"));
    assert!(store.contains("Pad"));
    assert!(!store.contains("pad"));
    assert!(!store.contains("Pad "));
    assert!(!store.contains(""));
}

#[test]
fn key_and_recorded_name_may_differ() {
    let store = MappingStore::new().put("key".to_string(), pad("recorded"));
    assert_eq!(store.get("key"), Some(pad("recorded")));
    assert_eq!(store.get("recorded"), None);
    assert_eq!(store.list_names(), vec!["key".to_string()]);
}

#[test]
fn remove_takes_out_the_named_mapping_only() {
    let store = MappingStore::new()
        .put("a".to_string(), pad("a"))
        .put("b".to_string(), pad("b"))
        .put("c".to_string(), pad("c"));
    let (store, removed) = store.remove("b");
    assert!(removed);
    assert_eq!(store.list_names(), vec!["a".to_string(), "c".to_string()]);
    assert_eq!(store.list(), vec![pad("a"), pad("c")]);
    let (store, removed) = store.remove("b");
    assert!(!removed);
    assert_eq!(store.len(), 2);
}

#[test]
fn list_follows_the_names() {
    let store = MappingStore::new()
        .put("z".to_string(), pad("z"))
        .put("a".to_string(), pad("a"))
        .put("z".to_string(), pad("z2"));
    assert_eq!(store.list_names(), vec!["z".to_string(), "a".to_string()]);
    assert_eq!(store.list(), vec![pad("z2"), pad("a")]);
}

#[test]
fn get_on_missing_file_finds_nothing() {
    assert_eq!(get(&StoreFile::Missing, "pad"), Ok(None));
    assert_eq!(has_mapping(&StoreFile::Missing, "pad"), Ok(false));
}

#[test]
fn get_on_file_without_the_name_finds_nothing() {
    let file = written(StoreFile::Missing, "other", pad_buttons(), pad_axes());
    assert_eq!(get(&file, "pad"), Ok(None));
    assert_eq!(has_mapping(&file, "pad"), Ok(false));
}

#[test]
fn save_then_get_returns_the_mapping() {
    let file = written(StoreFile::Missing, "Xbox Wireless Controller", pad_buttons(), pad_axes());
    let found = get(&file, "Xbox Wireless Controller").unwrap().unwrap();
    assert_eq!(found.name, "Xbox Wireless Controller");
    // order and duplicates of the lists are kept
    assert_eq!(found.buttons, pad_buttons());
    assert_eq!(found.axes, pad_axes());
    assert_eq!(found, pad("Xbox Wireless Controller"));
}

#[test]
fn save_then_get_with_empty_lists_and_odd_names() {
    for name in ["", " ", "päd ✓", "a\nb", "\"quoted\""] {
        let file = written(StoreFile::Missing, name, vec![], vec![]);
        let expected = ControllerMapping { name: name.to_string(), buttons: vec![], axes: vec![] };
        assert_eq!(get(&file, name), Ok(Some(expected)));
    }
}

#[test]
fn save_confirms_with_the_name() {
    let saved = save(StoreFile::Missing, "pad", vec![], vec![]);
    assert_eq!(saved.message, "Saved config for pad");
    assert_eq!(saved.store.len(), 1);
}

#[test]
fn save_merges_into_a_file_that_decodes() {
    let file = written(StoreFile::Missing, "one", pad_buttons(), vec![]);
    let file = written(file, "two", vec![], pad_axes());
    let one = ControllerMapping { name: "one".to_string(), buttons: pad_buttons(), axes: vec![] };
    let two = ControllerMapping { name: "two".to_string(), buttons: vec![], axes: pad_axes() };
    assert_eq!(get(&file, "one"), Ok(Some(one.clone())));
    assert_eq!(get(&file, "two"), Ok(Some(two.clone())));
    assert_eq!(list_all(&file), Ok(vec![one, two]));
}

#[test]
fn save_overwrites_the_entry_of_the_name() {
    let file = written(StoreFile::Missing, "pad", pad_buttons(), pad_axes());
    let file = written(file, "pad", vec![button("X", "BTN_WEST")], vec![]);
    let expected =
        ControllerMapping { name: "pad".to_string(), buttons: vec![button("X", "BTN_WEST")], axes: vec![] };
    assert_eq!(list_all(&file), Ok(vec![expected]));
}

#[test]
fn list_all_on_missing_file_is_empty() {
    assert_eq!(list_all(&StoreFile::Missing), Ok(vec![]));
}

#[test]
fn list_all_on_corrupt_file_fails_to_decode() {
    let file = StoreFile::Corrupt("expected value at line 1 column 1".to_string());
    assert_eq!(list_all(&file), Err(Error::Decode("expected value at line 1 column 1".to_string())));
}

#[test]
fn has_mapping_is_true_after_save_and_false_after_delete() {
    let file = written(StoreFile::Missing, "pad", pad_buttons(), pad_axes());
    assert_eq!(has_mapping(&file, "pad"), Ok(true));
    let file = match delete(file, "pad") {
        Ok(Deletion::Removed(rest)) => StoreFile::Present(rest),
        _ => panic!("the mapping was not removed"),
    };
    assert_eq!(has_mapping(&file, "pad"), Ok(false));
    assert_eq!(get(&file, "pad"), Ok(None));
}

#[test]
fn delete_on_missing_file_has_nothing_to_delete() {
    for _ in 0..2 {
        match delete(StoreFile::Missing, "pad") {
            Ok(deletion) => {
                assert!(matches!(deletion, Deletion::NoFile));
                assert_eq!(deletion.message("pad"), "No config file found, nothing to delete for pad");
            }
            Err(error) => panic!("{:?}", error),
        }
    }
}

#[test]
fn delete_of_an_unknown_name_is_idempotent() {
    let mut file = written(StoreFile::Missing, "other", pad_buttons(), pad_axes());
    for _ in 0..2 {
        let store = match file {
            StoreFile::Present(store) => store,
            _ => panic!("the file was lost"),
        };
        let names = store.list_names();
        let listed = store.list();
        let deletion = delete(StoreFile::Present(store), "pad").unwrap();
        assert!(matches!(deletion, Deletion::NotFound));
        assert_eq!(deletion.message("pad"), "Config for pad not found, nothing to delete");
        // nothing is written: the caller keeps the file it had
        file = StoreFile::Present(
            names.into_iter().zip(listed).fold(MappingStore::new(), |store, (name, mapping)| store.put(name, mapping)),
        );
        assert_eq!(has_mapping(&file, "other"), Ok(true));
    }
}

#[test]
fn delete_removes_once_then_finds_nothing() {
    let file = written(StoreFile::Missing, "pad", pad_buttons(), pad_axes());
    let file = written(file, "other", vec![], vec![]);
    let deletion = delete(file, "pad").unwrap();
    assert_eq!(deletion.message("pad"), "Deleted config for pad");
    let rest = match deletion {
        Deletion::Removed(rest) => rest,
        _ => panic!("the mapping was not removed"),
    };
    assert_eq!(rest.list_names(), vec!["other".to_string()]);
    let again = delete(StoreFile::Present(rest), "pad").unwrap();
    assert!(matches!(again, Deletion::NotFound));
}

#[test]
fn delete_on_corrupt_file_fails_to_decode() {
    match delete(StoreFile::Corrupt("bad".to_string()), "pad") {
        Err(error) => assert_eq!(error, Error::Decode("bad".to_string())),
        Ok(_) => panic!("a corrupt file was deleted from"),
    }
}

#[test]
fn corrupt_file_fails_get_but_not_save() {
    let cause = "missing field `configs` at line 1 column 2";
    assert_eq!(get(&StoreFile::Corrupt(cause.to_string()), "pad"), Err(Error::Decode(cause.to_string())));
    assert_eq!(has_mapping(&StoreFile::Corrupt(cause.to_string()), "pad"), Err(Error::Decode(cause.to_string())));

    let saved = save(StoreFile::Corrupt(cause.to_string()), "pad", pad_buttons(), pad_axes());
    assert_eq!(saved.message, "Saved config for pad");
    assert_eq!(saved.store.list_names(), vec!["pad".to_string()]);
    assert_eq!(saved.store.list(), vec![pad("pad")]);
    assert_eq!(get(&StoreFile::Present(saved.store), "pad"), Ok(Some(pad("pad"))));
}

#[test]
fn clone_of_a_mapping_is_equal() {
    let mapping = pad("pad");
    let copy = mapping.clone();
    assert_eq!(copy, mapping);
    assert_eq!(blitz::mapping::clone_buttons(&mapping.buttons), mapping.buttons);
    assert_eq!(blitz::mapping::clone_axes(&mapping.axes), mapping.axes);
}

#[test]
fn store_follows_a_run_of_saves_and_deletions() {
    let names = ["a", "b", "c", "d"];
    let mut expected: std::collections::HashMap<String, ControllerMapping> = std::collections::HashMap::new();
    let mut file = StoreFile::Corrupt("not json".to_string());
    let mut seed: u32 = 12345;
    for step in 0..400 {
        seed = seed.wrapping_mul(1_103_515_245).wrapping_add(12_345);
        let name = names[((seed >> 16) % 4) as usize];
        let saving = (seed >> 20) % 3 != 0;
        if saving {
            let buttons = vec![button("A", &format!("BTN_{}", step))];
            let axes = if step % 2 == 0 { pad_axes() } else { vec![] };
            expected.insert(
                name.to_string(),
                ControllerMapping { name: name.to_string(), buttons: buttons.clone(), axes: axes.clone() },
            );
            file = written(file, name, buttons, axes);
        } else {
            let was_corrupt = matches!(file, StoreFile::Corrupt(_));
            let stored = expected.remove(name).is_some();
            file = match file {
                StoreFile::Corrupt(cause) => {
                    assert_eq!(
                        delete(StoreFile::Corrupt(cause.clone()), name).err(),
                        Some(Error::Decode(cause.clone()))
                    );
                    StoreFile::Corrupt(cause)
                }
                StoreFile::Missing => StoreFile::Missing,
                StoreFile::Present(store) => {
                    let names_before = store.list_names();
                    let listed_before = store.list();
                    match delete(StoreFile::Present(store), name).unwrap() {
                        Deletion::Removed(rest) => {
                            assert!(stored);
                            StoreFile::Present(rest)
                        }
                        Deletion::NotFound => {
                            assert!(!stored);
                            StoreFile::Present(
                                names_before
                                    .into_iter()
                                    .zip(listed_before)
                                    .fold(MappingStore::new(), |store, (name, mapping)| store.put(name, mapping)),
                            )
                        }
                        Deletion::NoFile => panic!("the file was there"),
                    }
                }
            };
            assert!(!was_corrupt || !stored);
        }
        if !matches!(file, StoreFile::Corrupt(_)) {
            for probe in names {
                assert_eq!(has_mapping(&file, probe), Ok(expected.contains_key(probe)));
                assert_eq!(get(&file, probe), Ok(expected.get(probe).cloned()));
            }
            let mut listed = list_all(&file).unwrap();
            listed.sort_by(|left, right| left.name.cmp(&right.name));
            let mut all: Vec<ControllerMapping> = expected.values().cloned().collect();
            all.sort_by(|left, right| left.name.cmp(&right.name));
            assert_eq!(listed, all);
        }
    }
}

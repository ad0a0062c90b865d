//! Device identity: the name a device reports is the durable key of its
//! mapping, and the platform keeps it in an attribute file beside the
//! device. This module says where that file is and how its contents read.

use vstd::prelude::*;
use crate::error::Error;
use crate::text::{strip_prefixes, without_prefixes};

verus! {

/// Whether a character is whitespace: the code points that Unicode gives
/// the property `White_Space`.
pub open spec fn is_whitespace(c: char) -> bool {
    let code = c as u32;
    ||| 0x09 <= code <= 0x0D
    ||| code == 0x20
    ||| code == 0x85
    ||| code == 0xA0
    ||| code == 0x1680
    ||| 0x2000 <= code <= 0x200A
    ||| code == 0x2028
    ||| code == 0x2029
    ||| code == 0x202F
    ||| code == 0x205F
    ||| code == 0x3000
}

/// The text without its leading whitespace.
pub open spec fn trimmed_start(text: Seq<char>) -> Seq<char>
    decreases text.len(),
{
    if text.len() > 0 && is_whitespace(text[0]) {
        trimmed_start(text.skip(1))
    } else {
        text
    }
}

/// The text without its trailing whitespace.
pub open spec fn trimmed_end(text: Seq<char>) -> Seq<char>
    decreases text.len(),
{
    if text.len() > 0 && is_whitespace(text.last()) {
        trimmed_end(text.drop_last())
    } else {
        text
    }
}

/// The text without leading and trailing whitespace.
pub open spec fn trimmed(text: Seq<char>) -> Seq<char> {
    trimmed_end(trimmed_start(text))
}

/// A trimmed text is the stretch of the text that is left when all
/// whitespace before and behind it is taken away: it neither begins nor ends
/// with whitespace, and nothing but whitespace stands outside it.
pub proof fn lemma_trimmed(text: Seq<char>)
    ensures
        exists|from: int, to: int|
            {
                &&& 0 <= from <= to <= text.len()
                &&& trimmed(text) == #[trigger] text.subrange(from, to)
                &&& forall|k: int| 0 <= k < from || to <= k < text.len() ==> is_whitespace(text[k])
            },
        trimmed(text).len() > 0 ==> !is_whitespace(trimmed(text).first()) && !is_whitespace(
            trimmed(text).last(),
        ),
{
    lemma_trimmed_start(text);
    lemma_trimmed_end(trimmed_start(text));
    let inner = trimmed_start(text);
    let from = text.len() - inner.len();
    let to = from + trimmed(text).len();
    assert(trimmed(text) =~= text.subrange(from, to)) by {
        assert(trimmed(text) =~= inner.take(trimmed(text).len() as int));
    }
    assert forall|k: int| 0 <= k < from || to <= k < text.len() implies is_whitespace(
        text[k],
    ) by {
        if to <= k {
            assert(text[k] == inner[k - from]);
        }
    }
    if trimmed(text).len() > 0 {
        assert(trimmed(text).first() == inner.first());
    }
}

/// What is left without leading whitespace is the end of the text, does
/// not begin with whitespace, and has only whitespace before it.
proof fn lemma_trimmed_start(text: Seq<char>)
    ensures
        trimmed_start(text).len() <= text.len(),
        trimmed_start(text) == text.skip(text.len() - trimmed_start(text).len()),
        trimmed_start(text).len() > 0 ==> !is_whitespace(trimmed_start(text).first()),
        forall|k: int| 0 <= k < text.len() - trimmed_start(text).len() ==> is_whitespace(text[k]),
    decreases text.len(),
{
    if text.len() > 0 && is_whitespace(text[0]) {
        let rest = text.skip(1);
        lemma_trimmed_start(rest);
        let left = trimmed_start(rest);
        assert(left =~= text.skip(text.len() - left.len()));
        assert forall|k: int| 0 <= k < text.len() - left.len() implies is_whitespace(text[k]) by {
            if k > 0 {
                assert(text[k] == rest[k - 1]);
            }
        }
    } else {
        assert(text =~= text.skip(0));
    }
}

/// What is left without trailing whitespace is the beginning of the text,
/// does not end with whitespace, and has only whitespace behind it.
proof fn lemma_trimmed_end(text: Seq<char>)
    ensures
        trimmed_end(text).len() <= text.len(),
        trimmed_end(text) == text.take(trimmed_end(text).len() as int),
        trimmed_end(text).len() > 0 ==> !is_whitespace(trimmed_end(text).last()),
        forall|k: int| trimmed_end(text).len() <= k < text.len() ==> is_whitespace(text[k]),
    decreases text.len(),
{
    if text.len() > 0 && is_whitespace(text.last()) {
        let rest = text.drop_last();
        lemma_trimmed_end(rest);
        let left = trimmed_end(rest);
        assert(left =~= text.take(left.len() as int));
        assert forall|k: int| left.len() <= k < text.len() implies is_whitespace(text[k]) by {
            if k < rest.len() {
                assert(text[k] == rest[k]);
            }
        }
    } else {
        assert(text =~= text.take(text.len() as int));
    }
}

/// Path of a device node from the name of its event device.
pub open spec fn device_path_of(controller_event: Seq<char>) -> Seq<char> {
    "/dev/input/"@ + controller_event
}

/// Path of the attribute file that holds a device's reported name.
pub open spec fn name_attribute_path_of(event_path: Seq<char>) -> Seq<char> {
    "/sys/class/input/"@ + without_prefixes(event_path, "/dev/input/"@) + "/device/name"@
}

/// Path of the file that holds the stored mappings, below a home
/// directory; without one, below the current directory.
pub open spec fn configs_file_path_of(home: Option<Seq<char>>) -> Seq<char> {
    let base = match home {
        Some(directory) => directory,
        None => "."@,
    };
    if base.len() == 0 {
        ".config/blitz/controller-configs.json"@
    } else if base.last() == '/' {
        base + ".config/blitz/controller-configs.json"@
    } else {
        base + "/"@ + ".config/blitz/controller-configs.json"@
    }
}

/// Whether a character is whitespace.
pub fn char_is_whitespace(c: char) -> (whitespace: bool)
    ensures
        whitespace == is_whitespace(c),
{
    let code: u32 = c as u32;
    (0x09 <= code && code <= 0x0D) || code == 0x20 || code == 0x85 || code == 0xA0 || code
        == 0x1680 || (0x2000 <= code && code <= 0x200A) || code == 0x2028 || code == 0x2029
        || code == 0x202F || code == 0x205F || code == 0x3000
}

/// Takes leading and trailing whitespace off a text.
pub fn trim(text: &str) -> (inner: String)
    ensures
        inner@ == trimmed(text@),
{
    let length: usize = text.unicode_len();
    let mut start: usize = 0;
    assert(text@.skip(0) =~= text@);
    while start < length && char_is_whitespace(text.get_char(start))
        invariant
            start <= length,
            length == text@.len(),
            trimmed_start(text@) == trimmed_start(text@.skip(start as int)),
        decreases length - start,
    {
        assert(text@.skip(start as int).skip(1) =~= text@.skip(start + 1));
        start += 1;
    }
    assert(trimmed_start(text@) =~= text@.subrange(start as int, length as int));
    let mut end: usize = length;
    while end > start && char_is_whitespace(text.get_char(end - 1))
        invariant
            start <= end <= length,
            length == text@.len(),
            trimmed(text@) == trimmed_end(text@.subrange(start as int, end as int)),
        decreases end - start,
    {
        assert(text@.subrange(start as int, end as int).drop_last() =~= text@.subrange(
            start as int,
            end - 1,
        ));
        end -= 1;
    }
    text.substring_char(start, end).to_owned()
}

/// Path of a device node from the name of its event device, such as
/// `event5`.
pub fn device_path(controller_event: &str) -> (path: String)
    ensures
        path@ == device_path_of(controller_event@),
{
    String::from_str("/dev/input/").concat(controller_event)
}

/// Path of the attribute file that holds the reported name of the device
/// at `event_path`.
pub fn name_attribute_path(event_path: &str) -> (path: String)
    ensures
        path@ == name_attribute_path_of(event_path@),
{
    let event_name = strip_prefixes(event_path, "/dev/input/");
    let mut path = String::from_str("/sys/class/input/");
    path.append(event_name.as_str());
    path.append("/device/name");
    path
}

/// The device's name from what reading its attribute file gave: the
/// contents without surrounding whitespace, or a lookup failure that holds
/// the cause.
pub fn controller_name(read: Result<String, String>) -> (name: Result<String, Error>)
    ensures
        match read {
            Ok(contents) => name matches Ok(text) && text@ == trimmed(contents@),
            Err(cause) => name matches Err(error) && error@ == crate::error::ErrorView::NameLookup(
                cause@,
            ),
        },
{
    match read {
        Ok(contents) => Ok(trim(contents.as_str())),
        Err(cause) => Err(Error::NameLookup(cause)),
    }
}

/// Path of the file that holds the stored mappings.
pub fn configs_file_path(home: Option<&str>) -> (path: String)
    ensures
        path@ == configs_file_path_of(
            match home {
                Some(directory) => Some(directory@),
                None => None,
            },
        ),
{
    let base: &str = match home {
        Some(directory) => directory,
        None => ".",
    };
    let length: usize = base.unicode_len();
    if length == 0 {
        String::from_str(".config/blitz/controller-configs.json")
    } else if base.get_char(length - 1) == '/' {
        String::from_str(base).concat(".config/blitz/controller-configs.json")
    } else {
        String::from_str(base).concat("/").concat(".config/blitz/controller-configs.json")
    }
}

} // verus!

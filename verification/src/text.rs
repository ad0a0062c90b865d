//! Working on text: joining pieces, and taking prefixes off.

use vstd::prelude::*;

verus! {

/// The views of a list of strings, in order.
pub open spec fn texts(items: Seq<String>) -> Seq<Seq<char>> {
    Seq::new(items.len(), |i: int| items[i]@)
}

/// The items in order, with the separator between each two neighbours.
pub open spec fn joined(items: Seq<Seq<char>>, separator: Seq<char>) -> Seq<char>
    decreases items.len(),
{
    if items.len() == 0 {
        Seq::empty()
    } else if items.len() == 1 {
        items[0]
    } else {
        joined(items.drop_last(), separator) + separator + items.last()
    }
}

/// Joins the items in order, with the separator between each two
/// neighbours.
pub fn join(items: &Vec<String>, separator: &str) -> (text: String)
    ensures
        text@ == joined(texts(items@), separator@),
{
    let mut text = String::new();
    let mut i: usize = 0;
    while i < items.len()
        invariant
            i <= items.len(),
            text@ == joined(texts(items@).take(i as int), separator@),
        decreases items.len() - i,
    {
        assert(texts(items@).take(i + 1).drop_last() =~= texts(items@).take(i as int));
        if i > 0 {
            text.append(separator);
        }
        text.append(items[i].as_str());
        i += 1;
    }
    assert(texts(items@).take(items.len() as int) =~= texts(items@));
    text
}

/// The text without leading copies of a prefix: the prefix is taken off
/// as often as the text begins with it. An empty prefix takes nothing off.
pub open spec fn without_prefixes(text: Seq<char>, prefix: Seq<char>) -> Seq<char>
    decreases text.len(),
{
    if prefix.len() > 0 && prefix.is_prefix_of(text) {
        without_prefixes(text.skip(prefix.len() as int), prefix)
    } else {
        text
    }
}

/// What is left once the leading copies of a prefix are off is the end of
/// the text, and does not begin with the prefix any more.
pub proof fn lemma_without_prefixes(text: Seq<char>, prefix: Seq<char>)
    requires
        prefix.len() > 0,
    ensures
        without_prefixes(text, prefix).is_suffix_of(text),
        !prefix.is_prefix_of(without_prefixes(text, prefix)),
    decreases text.len(),
{
    if prefix.is_prefix_of(text) {
        let rest = text.skip(prefix.len() as int);
        lemma_without_prefixes(rest, prefix);
        let left = without_prefixes(rest, prefix);
        assert(left =~= text.subrange(text.len() - left.len(), text.len() as int)) by {
            assert(left =~= rest.subrange(rest.len() - left.len(), rest.len() as int));
        }
    } else {
        assert(text =~= text.subrange(0, text.len() as int));
    }
}

/// Whether `prefix` stands in `text` at the character position `start`.
fn stands_at(text: &str, start: usize, prefix: &str) -> (found: bool)
    requires
        start <= text@.len(),
    ensures
        found == prefix@.is_prefix_of(text@.skip(start as int)),
{
    let length: usize = text.unicode_len();
    let wanted: usize = prefix.unicode_len();
    if length - start < wanted {
        return false;
    }
    let mut i: usize = 0;
    while i < wanted
        invariant
            i <= wanted,
            wanted == prefix@.len(),
            length == text@.len(),
            start <= length,
            length - start >= wanted,
            forall|j: int| 0 <= j < i ==> prefix@[j] == text@[start + j],
        decreases wanted - i,
    {
        if prefix.get_char(i) != text.get_char(start + i) {
            return false;
        }
        i += 1;
    }
    true
}

/// Takes leading copies of a prefix off a text.
pub fn strip_prefixes(text: &str, prefix: &str) -> (rest: String)
    ensures
        rest@ == without_prefixes(text@, prefix@),
{
    let length: usize = text.unicode_len();
    let step: usize = prefix.unicode_len();
    if step == 0 {
        return text.to_owned();
    }
    let mut start: usize = 0;
    assert(text@.skip(0) =~= text@);
    loop
        invariant
            start <= length,
            length == text@.len(),
            step == prefix@.len(),
            step > 0,
            without_prefixes(text@, prefix@) == without_prefixes(
                text@.skip(start as int),
                prefix@,
            ),
        ensures
            start <= length,
            length == text@.len(),
            without_prefixes(text@, prefix@) == text@.skip(start as int),
        decreases length - start,
    {
        if !stands_at(text, start, prefix) {
            break;
        }
        assert(text@.skip(start as int).skip(step as int) =~= text@.skip(start + step));
        start += step;
    }
    text.substring_char(start, length).to_owned()
}

} // verus!

use vstd::prelude::*;
use vstd::string::*;

verus! {

/// Whether `text` ends with `suffix`.
pub open spec fn ends_with(text: Seq<char>, suffix: Seq<char>) -> bool {
    suffix.len() <= text.len() && text.subrange(text.len() - suffix.len(), text.len() as int)
        == suffix
}

/// Whether `text` ends with `suffix`.
pub fn has_suffix(text: &str, suffix: &str) -> (found: bool)
    ensures
        found == ends_with(text@, suffix@),
{
    let length = text.unicode_len();
    let wanted = suffix.unicode_len();
    if wanted > length {
        return false;
    }
    let tail = text.substring_char(length - wanted, length);
    tail.to_owned() == suffix.to_owned()
}

/// Whether `left` and `right` hold the same characters.
pub fn same_text(left: &str, right: &str) -> (same: bool)
    ensures
        same == (left@ == right@),
{
    left.to_owned() == right.to_owned()
}

/// `head` followed by `tail`.
pub fn join(head: &str, tail: &str) -> (whole: String)
    ensures
        whole@ == head@ + tail@,
{
    head.to_owned().concat(tail)
}

} // verus!

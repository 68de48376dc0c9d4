//! Handles: the domain names that accounts go by.

use crate::identity::is_alphanumeric;
use vstd::prelude::*;

verus! {

pub open spec fn is_letter(c: char) -> bool {
    ('a' <= c <= 'z') || ('A' <= c <= 'Z')
}

/// The characters of a label.
pub open spec fn is_label_char(c: char) -> bool {
    is_alphanumeric(c) || c == '-'
}

/// A label has 1 to 63 letters, digits and hyphens, and neither begins nor
/// ends with a hyphen.
pub open spec fn is_label(label: Seq<char>) -> bool {
    &&& 1 <= label.len() <= 63
    &&& is_alphanumeric(label[0])
    &&& is_alphanumeric(label.last())
    &&& forall|i: int| 0 <= i < label.len() ==> is_label_char(#[trigger] label[i])
}

/// How many characters a text begins with before its first `.`.
pub open spec fn label_length(text: Seq<char>) -> nat
    decreases text.len(),
{
    if text.len() == 0 || text[0] == '.' {
        0
    } else {
        1 + label_length(text.drop_first())
    }
}

/// Whether `text` from `from` on is made of labels, each but the last
/// followed by one `.`, where the last label begins with a letter and is
/// not the first.
pub open spec fn labels_from(text: Seq<char>, from: int) -> bool
    decreases text.len() - from,
{
    if from < 0 || from > text.len() {
        false
    } else {
        let end = from + label_length(text.skip(from));
        let label = text.subrange(from, end);
        if end >= text.len() {
            is_label(label) && is_letter(label[0]) && from > 0
        } else {
            is_label(label) && labels_from(text, end + 1)
        }
    }
}

/// Two or more labels with a `.` between each two, the last of which begins
/// with a letter; at most 253 characters.
pub open spec fn handle_syntax(text: Seq<char>) -> bool {
    text.len() <= 253 && labels_from(text, 0)
}

/// The count of a label's characters stops at the end of the text or at a `.`.
proof fn lemma_label_length_stops(text: Seq<char>)
    ensures
        label_length(text) <= text.len(),
        label_length(text) < text.len() ==> text[label_length(text) as int] == '.',
    decreases text.len(),
{
    if text.len() > 0 && text[0] != '.' {
        lemma_label_length_stops(text.drop_first());
        let rest = text.drop_first();
        if label_length(rest) < rest.len() {
            assert(rest[label_length(rest) as int] == text[label_length(text) as int]);
        }
    }
}

/// A text that is made of labels from `from` on has only characters of the
/// ASCII range from there on.
proof fn lemma_labels_are_ascii(text: Seq<char>, from: int)
    requires
        labels_from(text, from),
    ensures
        forall|k: int| from <= k < text.len() ==> '\0' <= #[trigger] text[k] <= '\u{7f}',
    decreases text.len() - from,
{
    let rest = text.skip(from);
    lemma_label_length_stops(rest);
    let end = from + label_length(rest);
    let label = text.subrange(from, end);
    assert forall|k: int| from <= k < end implies '\0' <= #[trigger] text[k] <= '\u{7f}' by {
        assert(is_label_char(label[k - from]));
    }
    if end < text.len() {
        assert(rest[label_length(rest) as int] == text[end]);
        lemma_labels_are_ascii(text, end + 1);
    }
}

/// A handle takes as many bytes as it has characters.
pub proof fn lemma_handle_is_ascii(text: Seq<char>)
    requires
        handle_syntax(text),
    ensures
        vstd::utf8::is_ascii_chars(text),
        vstd::utf8::encode_utf8(text).len() == text.len(),
{
    lemma_labels_are_ascii(text, 0);
    vstd::utf8::is_ascii_chars_encode_utf8(text);
}

/// Calls `atrium_api::types::string::Handle::new` and tells whether it
/// accepted the handle.
///
/// Trusted: `Handle::new` accepts exactly the strings of `handle_syntax`.
#[verifier::external_body]
fn check_handle(handle: &str) -> (accepted: bool)
    ensures
        accepted == handle_syntax(handle@),
{
    match atrium_api::types::string::Handle::new(handle.to_string()) {
        Ok(_) => true,
        Err(_) => false,
    }
}

/// Whether `text` is a handle.
pub fn is_handle(text: &str) -> (r: bool)
    ensures
        r == handle_syntax(text@),
{
    check_handle(text)
}

} // verus!

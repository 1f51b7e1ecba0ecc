//! Checks of texts that come from outside.

use crate::scan;
use crate::text;
use crate::text::{chars_of, same};
use crate::winpath;
use vstd::prelude::*;

verus! {

/// Whether a character is a control character.
pub open spec fn is_control(c: char) -> bool {
    c <= '\u{1f}' || '\u{7f}' <= c <= '\u{9f}'
}

/// Whether a character breaks a line or controls the output.
pub open spec fn breaks_line(c: char) -> bool {
    is_control(c) || c == '\u{2028}' || c == '\u{2029}'
}

/// Whether a text holds a control character.
pub open spec fn has_control(s: Seq<char>) -> bool {
    exists|i: int| 0 <= i < s.len() && is_control(#[trigger] s[i])
}

/// Whether a text holds a character that breaks a line or controls the output.
pub open spec fn has_line_break(s: Seq<char>) -> bool {
    exists|i: int| 0 <= i < s.len() && breaks_line(#[trigger] s[i])
}

/// Whether a character is a control character.
pub fn is_control_char(c: char) -> (r: bool)
    ensures
        r == is_control(c),
{
    c <= '\u{1f}' || ('\u{7f}' <= c && c <= '\u{9f}')
}

/// Whether a text holds a control character.
pub fn contains_control(s: &str) -> (r: bool)
    ensures
        r == has_control(s@),
{
    let chars = chars_of(s);
    let mut i: usize = 0;
    while i < chars.len()
        invariant
            i <= chars@.len(),
            chars@ == s@,
            forall|j: int| 0 <= j < i ==> !is_control(#[trigger] s@[j]),
        decreases chars@.len() - i,
    {
        if is_control_char(chars[i]) {
            assert(is_control(s@[i as int]));
            return true;
        }
        i += 1;
    }
    false
}

/// Whether a text holds a character that breaks a line or controls the output.
pub fn contains_line_break(s: &str) -> (r: bool)
    ensures
        r == has_line_break(s@),
{
    let chars = chars_of(s);
    let mut i: usize = 0;
    while i < chars.len()
        invariant
            i <= chars@.len(),
            chars@ == s@,
            forall|j: int| 0 <= j < i ==> !breaks_line(#[trigger] s@[j]),
        decreases chars@.len() - i,
    {
        if is_control_char(chars[i]) || chars[i] == '\u{2028}' || chars[i] == '\u{2029}' {
            assert(breaks_line(s@[i as int]));
            return true;
        }
        i += 1;
    }
    false
}

/// Whether a path leads through the parent of a directory.
pub open spec fn climbs(path: Seq<char>) -> bool {
    winpath::parts(path).names.contains(".."@) || winpath::names(path, false).contains(".."@)
}

/// Whether a path leads through the parent of a directory.
pub fn has_parent_component(path: &str) -> (r: bool)
    ensures
        r == climbs(path@),
{
    let parsed = winpath::parse_path(path);
    if holds_parent(parsed.names.as_slice()) {
        return true;
    }
    let plain = winpath::plain_names(path);
    holds_parent(plain.as_slice())
}

fn holds_parent(names: &[String]) -> (r: bool)
    ensures
        r == text::views(names@).contains(".."@),
{
    let ghost all = text::views(names@);
    let mut i: usize = 0;
    while i < names.len()
        invariant
            i <= names@.len(),
            all == text::views(names@),
            forall|j: int| 0 <= j < i ==> #[trigger] all[j] != ".."@,
        decreases names@.len() - i,
    {
        assert(all[i as int] == names@[i as int]@);
        if same(names[i].as_str(), "..") {
            return true;
        }
        i += 1;
    }
    assert(forall|j: int| 0 <= j < all.len() ==> all[j] != ".."@);
    false
}

/// Whether a text holds a separator of paths.
pub fn path_text_has_separator(s: &str) -> (r: bool)
    ensures
        r == (s@.contains('/') || s@.contains('\\')),
{
    scan::contains_char(s, '/') || scan::contains_char(s, '\\')
}

} // verus!

//! Searching, splitting, trimming and number parsing on texts.

use crate::text;
use crate::text::chars_of;
use vstd::prelude::*;

verus! {

/// Whether a character is white space in the sense of Unicode.
pub open spec fn is_white(c: char) -> bool {
    ||| '\u{9}' <= c <= '\u{d}'
    ||| c == ' '
    ||| c == '\u{85}'
    ||| c == '\u{a0}'
    ||| c == '\u{1680}'
    ||| '\u{2000}' <= c <= '\u{200a}'
    ||| c == '\u{2028}'
    ||| c == '\u{2029}'
    ||| c == '\u{202f}'
    ||| c == '\u{205f}'
    ||| c == '\u{3000}'
}

/// The text without white space in front.
pub open spec fn trim_start(s: Seq<char>) -> Seq<char>
    decreases s.len(),
{
    if s.len() > 0 && is_white(s[0]) {
        trim_start(s.drop_first())
    } else {
        s
    }
}

/// The text without white space at the end.
pub open spec fn trim_end(s: Seq<char>) -> Seq<char>
    decreases s.len(),
{
    if s.len() > 0 && is_white(s.last()) {
        trim_end(s.drop_last())
    } else {
        s
    }
}

/// The text without white space on either side.
pub open spec fn trim(s: Seq<char>) -> Seq<char> {
    trim_end(trim_start(s))
}

/// The index of the first occurrence of a character.
pub open spec fn position(s: Seq<char>, c: char) -> Option<nat>
    decreases s.len(),
{
    if s.len() == 0 {
        None
    } else if s[0] == c {
        Some(0)
    } else {
        match position(s.drop_first(), c) {
            Some(n) => Some(n + 1),
            None => None,
        }
    }
}

/// The index of the last occurrence of a character.
pub open spec fn last_position(s: Seq<char>, c: char) -> Option<nat>
    decreases s.len(),
{
    if s.len() == 0 {
        None
    } else if s.last() == c {
        Some((s.len() - 1) as nat)
    } else {
        last_position(s.drop_last(), c)
    }
}

/// Whether a text begins with another.
pub open spec fn starts(s: Seq<char>, p: Seq<char>) -> bool {
    s.len() >= p.len() && s.take(p.len() as int) == p
}

/// Whether a text ends with another.
pub open spec fn ends(s: Seq<char>, p: Seq<char>) -> bool {
    s.len() >= p.len() && s.skip(s.len() - p.len()) == p
}

/// The index of the first occurrence of a text.
pub open spec fn find(s: Seq<char>, p: Seq<char>) -> Option<nat>
    decreases s.len(),
{
    if starts(s, p) {
        Some(0)
    } else if s.len() == 0 {
        None
    } else {
        match find(s.drop_first(), p) {
            Some(n) => Some(n + 1),
            None => None,
        }
    }
}

/// A character in lower case, if it is an ASCII letter.
pub open spec fn lower(c: char) -> char {
    if 'A' <= c <= 'Z' {
        (c as u32 + 32) as char
    } else {
        c
    }
}

/// A text with its ASCII letters in lower case.
pub open spec fn lower_all(s: Seq<char>) -> Seq<char> {
    s.map_values(|c: char| lower(c))
}

/// The lines of a text: each ends at a line feed, which is left out together with a carriage
/// return in front of it; the last line feed may be missing.
pub open spec fn lines(s: Seq<char>) -> Seq<Seq<char>>
    decreases s.len(),
{
    if s.len() == 0 {
        Seq::empty()
    } else {
        match position(s, '\n') {
            None => seq![s],
            Some(n) => if n < s.len() {
                seq![without_cr(s.take(n as int))] + lines(s.skip(n as int + 1))
            } else {
                Seq::empty()
            },
        }
    }
}

/// The text without a carriage return at its end.
pub open spec fn without_cr(s: Seq<char>) -> Seq<char> {
    if s.len() > 0 && s.last() == '\r' {
        s.drop_last()
    } else {
        s
    }
}

/// The number of characters in front of the first white space.
pub open spec fn word_len(s: Seq<char>) -> nat
    decreases s.len(),
{
    if s.len() == 0 || is_white(s[0]) {
        0
    } else {
        1 + word_len(s.drop_first())
    }
}

/// The words of a text: its longest parts without white space.
pub open spec fn words(s: Seq<char>) -> Seq<Seq<char>>
    decreases s.len(),
{
    if s.len() == 0 {
        Seq::empty()
    } else if is_white(s[0]) {
        words(s.drop_first())
    } else {
        let n = word_len(s);
        if n <= s.len() {
            seq![s.take(n as int)] + words(s.skip(n as int))
        } else {
            Seq::empty()
        }
    }
}

/// A text without the carriage returns and line feeds at its end.
pub open spec fn without_line_end(s: Seq<char>) -> Seq<char>
    decreases s.len(),
{
    if s.len() > 0 && (s.last() == '\r' || s.last() == '\n') {
        without_line_end(s.drop_last())
    } else {
        s
    }
}

/// The parts of a text in front of and behind the first occurrence of a character.
pub open spec fn split_at_first(s: Seq<char>, c: char) -> Option<(Seq<char>, Seq<char>)> {
    match position(s, c) {
        Some(n) => Some((s.take(n as int), s.skip(n as int + 1))),
        None => None,
    }
}

/// The part of a text in front of the first occurrence of a character, or all of it.
pub open spec fn before(s: Seq<char>, c: char) -> Seq<char> {
    match split_at_first(s, c) {
        Some((head, _)) => head,
        None => s,
    }
}

/// The value of a digit, in a base up to sixteen.
pub open spec fn digit_value(c: char) -> nat {
    if '0' <= c <= '9' {
        (c as u32 - 48) as nat
    } else if 'a' <= c <= 'f' {
        (c as u32 - 87) as nat
    } else if 'A' <= c <= 'F' {
        (c as u32 - 55) as nat
    } else {
        16
    }
}

/// Whether all characters are digits of a base.
pub open spec fn all_digits(s: Seq<char>, base: nat) -> bool {
    forall|i: int| 0 <= i < s.len() ==> digit_value(#[trigger] s[i]) < base
}

/// The number that a row of digits stands for.
pub open spec fn number_of(s: Seq<char>, base: nat) -> nat
    decreases s.len(),
{
    if s.len() == 0 {
        0
    } else {
        number_of(s.drop_last(), base) * base + digit_value(s.last())
    }
}

/// The number that a text stands for: digits, at least one, with an optional plus sign in
/// front, and a value within the limit.
pub open spec fn parse_number(s: Seq<char>, base: nat, limit: nat) -> Option<nat> {
    let d = if s.len() > 0 && s[0] == '+' {
        s.drop_first()
    } else {
        s
    };
    if d.len() > 0 && all_digits(d, base) && number_of(d, base) <= limit {
        Some(number_of(d, base))
    } else {
        None
    }
}

/// The first position is the first one.
pub proof fn position_is_first(s: Seq<char>, c: char, n: int)
    requires
        0 <= n <= s.len(),
        forall|i: int| 0 <= i < n ==> s[i] != c,
        n == s.len() || s[n] == c,
    ensures
        position(s, c) == (if n < s.len() {
            Some(n as nat)
        } else {
            None
        }),
    decreases s.len(),
{
    if n > 0 {
        position_is_first(s.drop_first(), c, n - 1);
    }
}

/// What is known of a found position.
pub proof fn position_facts(s: Seq<char>, c: char)
    ensures
        match position(s, c) {
            Some(n) => n < s.len() && s[n as int] == c && forall|i: int| 0 <= i < n ==> s[i] != c,
            None => forall|i: int| 0 <= i < s.len() ==> s[i] != c,
        },
    decreases s.len(),
{
    if s.len() > 0 && s[0] != c {
        let rest = s.drop_first();
        position_facts(rest, c);
        match position(rest, c) {
            Some(n) => {
                assert forall|i: int| 0 <= i < n + 1 implies s[i] != c by {
                    if i > 0 {
                        assert(rest[i - 1] == s[i]);
                    }
                }
            },
            None => {
                assert forall|i: int| 0 <= i < s.len() implies s[i] != c by {
                    if i > 0 {
                        assert(rest[i - 1] == s[i]);
                    }
                }
            },
        }
    }
}

/// Whether a character does not occur from an index on.
pub open spec fn free_from(s: Seq<char>, c: char, from: int) -> bool
    decreases s.len() - from,
{
    from >= s.len() || (s[from] != c && free_from(s, c, from + 1))
}

/// A character that does not occur from an index on is at none of the places there.
pub proof fn free_from_all(s: Seq<char>, c: char, from: int)
    requires
        0 <= from,
        free_from(s, c, from),
    ensures
        forall|i: int| from <= i < s.len() ==> s[i] != c,
    decreases s.len() - from,
{
    if from < s.len() {
        free_from_all(s, c, from + 1);
    }
}

/// The first line of a text, and the lines behind it.
pub proof fn first_line(line: Seq<char>, rest: Seq<char>)
    requires
        forall|i: int| 0 <= i < line.len() ==> line[i] != '\n',
        line.len() > 0 ==> line.last() != '\r',
    ensures
        lines(line.push('\n') + rest) == seq![line] + lines(rest),
{
    let s = line.push('\n') + rest;
    let n = line.len() as int;
    assert forall|i: int| 0 <= i < n implies s[i] != '\n' by {
        assert(s[i] == line[i]);
    }
    position_is_first(s, '\n', n);
    assert(s.take(n) =~= line);
    assert(s.skip(n + 1) =~= rest);
}

/// Whole lines stay as they are when more follows them.
pub proof fn whole_lines_stay(s: Seq<char>, rest: Seq<char>)
    requires
        s.len() > 0 ==> s.last() == '\n',
    ensures
        lines(s + rest) == lines(s) + lines(rest),
    decreases s.len(),
{
    if s.len() == 0 {
        assert(s + rest =~= rest);
        assert(lines(s) + lines(rest) =~= lines(rest));
    } else {
        position_facts(s, '\n');
        match position(s, '\n') {
            Some(n) => {
                let k = n as int;
                let tail = s.skip(k + 1);
                assert forall|i: int| 0 <= i < k implies (s + rest)[i] != '\n' by {
                    assert((s + rest)[i] == s[i]);
                }
                position_is_first(s + rest, '\n', k);
                assert((s + rest).take(k) =~= s.take(k));
                assert((s + rest).skip(k + 1) =~= tail + rest);
                assert(tail.len() > 0 ==> tail.last() == s.last());
                whole_lines_stay(tail, rest);
                let first = seq![without_cr(s.take(k))];
                assert(first + (lines(tail) + lines(rest)) =~= (first + lines(tail)) + lines(rest));
            },
            None => {
                assert(s[s.len() - 1] == '\n');
            },
        }
    }
}

/// Whether a character is white space.
pub fn is_white_char(c: char) -> (r: bool)
    ensures
        r == is_white(c),
{
    ('\u{9}' <= c && c <= '\u{d}') || c == ' ' || c == '\u{85}' || c == '\u{a0}' || c == '\u{1680}'
        || ('\u{2000}' <= c && c <= '\u{200a}') || c == '\u{2028}' || c == '\u{2029}' || c
        == '\u{202f}' || c == '\u{205f}' || c == '\u{3000}'
}

/// A part of a row of characters as text.
pub fn part(chars: &[char], from: usize, to: usize) -> (r: String)
    requires
        from <= to <= chars@.len(),
    ensures
        r@ == chars@.subrange(from as int, to as int),
{
    let mut out = String::new();
    let mut i: usize = from;
    while i < to
        invariant
            from <= i <= to <= chars@.len(),
            out@ == chars@.subrange(from as int, i as int),
        decreases to - i,
    {
        out.push(chars[i]);
        i += 1;
        assert(chars@.subrange(from as int, i as int) =~= chars@.subrange(
            from as int,
            i as int - 1,
        ).push(chars@[i as int - 1]));
    }
    out
}

/// The text without white space on either side.
pub fn trim_text(s: &str) -> (r: String)
    ensures
        r@ == trim(s@),
{
    let chars = chars_of(s);
    let mut from: usize = 0;
    assert(s@.skip(0) =~= s@);
    while from < chars.len() && is_white_char(chars[from])
        invariant
            from <= chars@.len(),
            chars@ == s@,
            trim_start(s@) == trim_start(s@.skip(from as int)),
        decreases chars@.len() - from,
    {
        assert(s@.skip(from as int).drop_first() =~= s@.skip(from as int + 1));
        from += 1;
    }
    assert(trim_start(s@) == s@.skip(from as int));
    let mut to: usize = chars.len();
    assert(s@.subrange(from as int, to as int) =~= s@.skip(from as int));
    while to > from && is_white_char(chars[to - 1])
        invariant
            from <= to <= chars@.len(),
            chars@ == s@,
            trim_end(s@.skip(from as int)) == trim_end(s@.subrange(from as int, to as int)),
        decreases to,
    {
        assert(s@.subrange(from as int, to as int).drop_last() =~= s@.subrange(
            from as int,
            to as int - 1,
        ));
        to -= 1;
    }
    part(chars.as_slice(), from, to)
}

/// Whether a text holds nothing but white space.
pub fn is_blank(s: &str) -> (r: bool)
    ensures
        r == (trim(s@).len() == 0),
{
    trim_text(s).as_str().is_empty()
}

/// The index of the first occurrence of a character, from an index on.
pub fn position_from(chars: &[char], c: char, from: usize) -> (r: Option<usize>)
    requires
        from <= chars@.len(),
    ensures
        match r {
            Some(n) => from <= n < chars@.len() && position(chars@.skip(from as int), c) == Some(
                (n - from) as nat,
            ),
            None => position(chars@.skip(from as int), c) is None,
        },
{
    let ghost rest = chars@.skip(from as int);
    let mut i: usize = from;
    while i < chars.len()
        invariant
            from <= i <= chars@.len(),
            rest == chars@.skip(from as int),
            forall|j: int| 0 <= j < i - from ==> rest[j] != c,
        decreases chars@.len() - i,
    {
        if chars[i] == c {
            proof {
                position_is_first(rest, c, i - from);
            }
            return Some(i);
        }
        i += 1;
    }
    proof {
        position_is_first(rest, c, rest.len() as int);
    }
    None
}

/// The index of the first occurrence of a character.
pub fn position_of(chars: &[char], c: char) -> (r: Option<usize>)
    ensures
        match r {
            Some(n) => n < chars@.len() && position(chars@, c) == Some(n as nat),
            None => position(chars@, c) is None,
        },
{
    assert(chars@.skip(0) =~= chars@);
    position_from(chars, c, 0)
}

/// The index of the last occurrence of a character.
pub fn last_position_of(chars: &[char], c: char) -> (r: Option<usize>)
    ensures
        match r {
            Some(n) => n < chars@.len() && last_position(chars@, c) == Some(n as nat),
            None => last_position(chars@, c) is None,
        },
{
    let mut i: usize = chars.len();
    assert(chars@.take(chars@.len() as int) =~= chars@);
    while i > 0
        invariant
            i <= chars@.len(),
            last_position(chars@, c) == last_position(chars@.take(i as int), c),
        decreases i,
    {
        assert(chars@.take(i as int).drop_last() =~= chars@.take(i as int - 1));
        if chars[i - 1] == c {
            return Some(i - 1);
        }
        i -= 1;
    }
    None
}

/// Whether the characters from an index on begin with a text.
pub fn matches_at(chars: &[char], at: usize, p: &[char]) -> (r: bool)
    requires
        at <= chars@.len(),
    ensures
        r == starts(chars@.skip(at as int), p@),
{
    let ghost rest = chars@.skip(at as int);
    if chars.len() - at < p.len() {
        return false;
    }
    let mut i: usize = 0;
    while i < p.len()
        invariant
            i <= p@.len(),
            at + p@.len() <= chars@.len(),
            rest == chars@.skip(at as int),
            forall|j: int| 0 <= j < i ==> rest[j] == p@[j],
        decreases p@.len() - i,
    {
        let size: usize = chars.len();
        assert(at + i < size);
        if chars[at + i] != p[i] {
            assert(rest[i as int] != p@[i as int]);
            assert(rest.take(p@.len() as int)[i as int] == rest[i as int]);
            return false;
        }
        i += 1;
    }
    assert(rest.take(p@.len() as int) =~= p@);
    true
}

/// Whether a text begins with another.
pub fn starts_with(s: &str, p: &str) -> (r: bool)
    ensures
        r == starts(s@, p@),
{
    let chars = chars_of(s);
    let pattern = chars_of(p);
    assert(s@.skip(0) =~= s@);
    matches_at(chars.as_slice(), 0, pattern.as_slice())
}

/// Whether a text ends with another.
pub fn ends_with(s: &str, p: &str) -> (r: bool)
    ensures
        r == ends(s@, p@),
{
    let chars = chars_of(s);
    let pattern = chars_of(p);
    if chars.len() < pattern.len() {
        return false;
    }
    let at: usize = chars.len() - pattern.len();
    assert(s@.skip(at as int).take(p@.len() as int) =~= s@.skip(at as int));
    matches_at(chars.as_slice(), at, pattern.as_slice())
}

/// The index of the first occurrence of a text, from an index on.
pub fn find_from(chars: &[char], p: &[char], from: usize) -> (r: Option<usize>)
    requires
        from <= chars@.len(),
    ensures
        match r {
            Some(n) => from <= n && n + p@.len() <= chars@.len() && find(
                chars@.skip(from as int),
                p@,
            ) == Some((n - from) as nat) && starts(chars@.skip(n as int), p@),
            None => find(chars@.skip(from as int), p@) is None,
        },
{
    let size: usize = chars.len();
    let mut at: usize = from;
    while at < size
        invariant
            from <= at <= size,
            size == chars@.len(),
            match find(chars@.skip(from as int), p@) {
                Some(n) => find(chars@.skip(at as int), p@) == Some((n - (at - from)) as nat) && n
                    >= at - from,
                None => find(chars@.skip(at as int), p@) is None,
            },
        decreases size - at,
    {
        if matches_at(chars, at, p) {
            return Some(at);
        }
        assert(chars@.skip(at as int).drop_first() =~= chars@.skip(at as int + 1));
        at += 1;
    }
    if matches_at(chars, at, p) {
        return Some(at);
    }
    None
}

/// Whether a text occurs in another.
pub fn contains_text(s: &str, p: &str) -> (r: bool)
    ensures
        r == (find(s@, p@) is Some),
{
    let chars = chars_of(s);
    let pattern = chars_of(p);
    assert(s@.skip(0) =~= s@);
    let mut at: usize = 0;
    while at < chars.len()
        invariant
            at <= chars@.len(),
            chars@ == s@,
            pattern@ == p@,
            (find(s@, p@) is Some) == (find(s@.skip(at as int), p@) is Some),
        decreases chars@.len() - at,
    {
        if matches_at(chars.as_slice(), at, pattern.as_slice()) {
            return true;
        }
        assert(s@.skip(at as int).drop_first() =~= s@.skip(at as int + 1));
        at += 1;
    }
    matches_at(chars.as_slice(), at, pattern.as_slice())
}

/// Whether a character occurs in a text.
pub fn contains_char(s: &str, c: char) -> (r: bool)
    ensures
        r == s@.contains(c),
{
    let chars = chars_of(s);
    proof {
        position_facts(s@, c);
    }
    match position_of(chars.as_slice(), c) {
        Some(n) => {
            assert(s@[n as int] == c);
            true
        },
        None => false,
    }
}

/// A character in lower case, if it is an ASCII letter.
pub fn lower_char(c: char) -> (r: char)
    ensures
        r == lower(c),
{
    if 'A' <= c && c <= 'Z' {
        (c as u8 + 32) as char
    } else {
        c
    }
}

/// A text with its ASCII letters in lower case.
pub fn lower_text(s: &str) -> (r: String)
    ensures
        r@ == lower_all(s@),
{
    let chars = chars_of(s);
    let mut out = String::new();
    let mut i: usize = 0;
    while i < chars.len()
        invariant
            i <= chars@.len(),
            chars@ == s@,
            out@ == lower_all(s@.take(i as int)),
        decreases chars@.len() - i,
    {
        out.push(lower_char(chars[i]));
        i += 1;
        assert(lower_all(s@.take(i as int)) =~= lower_all(s@.take(i as int - 1)).push(
            lower(s@[i as int - 1]),
        ));
    }
    assert(s@.take(s@.len() as int) =~= s@);
    out
}

/// Whether two texts are equal but for the case of ASCII letters.
pub fn same_fold(a: &str, b: &str) -> (r: bool)
    ensures
        r == (lower_all(a@) == lower_all(b@)),
{
    let x = lower_text(a);
    let y = lower_text(b);
    text::same(x.as_str(), y.as_str())
}

/// The lines of a text.
pub fn lines_of(s: &str) -> (r: Vec<String>)
    ensures
        text::views(r@) == lines(s@),
{
    let chars = chars_of(s);
    let mut out: Vec<String> = Vec::new();
    let mut from: usize = 0;
    assert(s@.skip(0) =~= s@);
    assert(text::views(out@) + lines(s@) =~= lines(s@));
    while from < chars.len()
        invariant
            from <= chars@.len(),
            chars@ == s@,
            text::views(out@) + lines(s@.skip(from as int)) == lines(s@),
        decreases chars@.len() - from,
    {
        let ghost rest = s@.skip(from as int);
        let ghost before = text::views(out@);
        match position_from(chars.as_slice(), '\n', from) {
            None => {
                let line = part(chars.as_slice(), from, chars.len());
                assert(line@ =~= rest);
                out.push(line);
                from = chars.len();
                assert(text::views(out@) =~= before + seq![rest]);
                assert(text::views(out@) + lines(s@.skip(from as int)) =~= before + seq![rest]);
            },
            Some(n) => {
                let to: usize = if n > from && chars[n - 1] == '\r' {
                    n - 1
                } else {
                    n
                };
                let line = part(chars.as_slice(), from, to);
                assert(line@ =~= without_cr(rest.take(n - from)));
                out.push(line);
                assert(rest.skip(n - from + 1) =~= s@.skip(n + 1));
                from = n + 1;
                assert(text::views(out@) =~= before + seq![line@]);
                assert(text::views(out@) + lines(s@.skip(from as int)) =~= before + (seq![line@]
                    + lines(s@.skip(from as int))));
            },
        }
    }
    assert(text::views(out@) + lines(s@.skip(from as int)) =~= text::views(out@));
    out
}

/// The words of a text.
pub fn words_of(s: &str) -> (r: Vec<String>)
    ensures
        text::views(r@) == words(s@),
{
    let chars = chars_of(s);
    let mut out: Vec<String> = Vec::new();
    let mut from: usize = 0;
    assert(s@.skip(0) =~= s@);
    assert(text::views(out@) + words(s@) =~= words(s@));
    while from < chars.len()
        invariant
            from <= chars@.len(),
            chars@ == s@,
            text::views(out@) + words(s@.skip(from as int)) == words(s@),
        decreases chars@.len() - from,
    {
        let ghost rest = s@.skip(from as int);
        if is_white_char(chars[from]) {
            assert(rest.drop_first() =~= s@.skip(from as int + 1));
            from += 1;
        } else {
            let ghost before = text::views(out@);
            let mut to: usize = from;
            while to < chars.len() && !is_white_char(chars[to])
                invariant
                    from <= to <= chars@.len(),
                    from < chars@.len(),
                    !is_white(chars@[from as int]),
                    chars@ == s@,
                    rest == s@.skip(from as int),
                    word_len(rest) == (to - from) + word_len(s@.skip(to as int)),
                decreases chars@.len() - to,
            {
                assert(s@.skip(to as int).drop_first() =~= s@.skip(to as int + 1));
                to += 1;
            }
            assert(word_len(s@.skip(to as int)) == 0);
            let word = part(chars.as_slice(), from, to);
            assert(word@ =~= rest.take(to - from));
            assert(rest.skip(to - from) =~= s@.skip(to as int));
            out.push(word);
            from = to;
            assert(text::views(out@) =~= before + seq![word@]);
            assert(text::views(out@) + words(s@.skip(from as int)) =~= before + (seq![word@]
                + words(s@.skip(from as int))));
        }
    }
    assert(text::views(out@) + words(s@.skip(from as int)) =~= text::views(out@));
    out
}

/// The text without the carriage returns and line feeds at its end.
pub fn cut_line_end(s: &str) -> (r: String)
    ensures
        r@ == without_line_end(s@),
{
    let chars = chars_of(s);
    let mut to: usize = chars.len();
    assert(s@.take(to as int) =~= s@);
    while to > 0 && (chars[to - 1] == '\r' || chars[to - 1] == '\n')
        invariant
            to <= chars@.len(),
            chars@ == s@,
            without_line_end(s@) == without_line_end(s@.take(to as int)),
        decreases to,
    {
        assert(s@.take(to as int).drop_last() =~= s@.take(to as int - 1));
        to -= 1;
    }
    assert(s@.take(to as int) =~= s@.subrange(0, to as int));
    part(chars.as_slice(), 0, to)
}

/// The parts of a text in front of and behind the first occurrence of a character.
pub fn split_once_at(s: &str, c: char) -> (r: Option<(String, String)>)
    ensures
        match r {
            Some((head, tail)) => split_at_first(s@, c) == Some((head@, tail@)),
            None => split_at_first(s@, c) is None,
        },
{
    let chars = chars_of(s);
    match position_of(chars.as_slice(), c) {
        Some(n) => {
            let head = part(chars.as_slice(), 0, n);
            let size: usize = chars.len();
            let tail = part(chars.as_slice(), n + 1, size);
            assert(head@ =~= s@.take(n as int));
            assert(tail@ =~= s@.skip(n as int + 1));
            Some((head, tail))
        },
        None => None,
    }
}

/// The part of a text in front of the first occurrence of a character, or all of it.
pub fn before_char(s: &str, c: char) -> (r: String)
    ensures
        r@ == before(s@, c),
{
    match split_once_at(s, c) {
        Some((head, _)) => head,
        None => s.to_owned(),
    }
}

fn digit_number(c: char) -> (r: u64)
    ensures
        r == digit_value(c),
{
    if '0' <= c && c <= '9' {
        (c as u64) - 48
    } else if 'a' <= c && c <= 'f' {
        (c as u64) - 87
    } else if 'A' <= c && c <= 'F' {
        (c as u64) - 55
    } else {
        16
    }
}

/// The number that a part of a row of characters stands for.
pub fn parse_chars(chars: &[char], base: u64, limit: u64) -> (r: Option<u64>)
    requires
        2 <= base <= 16,
    ensures
        match r {
            Some(n) => parse_number(chars@, base as nat, limit as nat) == Some(n as nat),
            None => parse_number(chars@, base as nat, limit as nat) is None,
        },
{
    let from: usize = if chars.len() > 0 && chars[0] == '+' {
        1
    } else {
        0
    };
    let ghost d = chars@.skip(from as int);
    proof {
        if from == 1 {
            assert(d =~= chars@.drop_first());
        } else {
            assert(d =~= chars@);
        }
    }
    if from == chars.len() {
        return None;
    }
    let mut value: u64 = 0;
    let mut i: usize = from;
    while i < chars.len()
        invariant
            from <= i <= chars@.len(),
            2 <= base <= 16,
            d == chars@.skip(from as int),
            forall|j: int| 0 <= j < i - from ==> digit_value(#[trigger] d[j]) < base,
            value == number_of(d.take(i - from), base as nat),
            value <= limit,
            parse_number(chars@, base as nat, limit as nat) == (if d.len() > 0 && all_digits(
                d,
                base as nat,
            ) && number_of(d, base as nat) <= limit {
                Some(number_of(d, base as nat))
            } else {
                None
            }),
        decreases chars@.len() - i,
    {
        let digit: u64 = digit_number(chars[i]);
        assert(d[i - from] == chars@[i as int]);
        if digit >= base {
            return None;
        }
        let ghost now = d.take(i - from + 1);
        assert(now.drop_last() =~= d.take(i - from));
        assert(now.last() == chars@[i as int]);
        assert(value * base <= 16 * u64::MAX) by (nonlinear_arith)
            requires
                value <= u64::MAX,
                base <= 16,
        ;
        let wide: u128 = value as u128 * base as u128 + digit as u128;
        if wide > limit as u128 {
            proof {
                number_of_grows(d, base as nat, i - from + 1, d.len() as int);
                assert(d.take(d.len() as int) =~= d);
            }
            return None;
        }
        value = wide as u64;
        i += 1;
    }
    assert(d.take(d.len() as int) =~= d);
    Some(value)
}

proof fn number_of_grows(d: Seq<char>, base: nat, a: int, b: int)
    requires
        0 <= a <= b <= d.len(),
        base >= 1,
    ensures
        number_of(d.take(a), base) <= number_of(d.take(b), base),
    decreases b - a,
{
    if a < b {
        number_of_grows(d, base, a, b - 1);
        assert(d.take(b).drop_last() =~= d.take(b - 1));
        let n = number_of(d.take(b - 1), base);
        assert(n * base >= n) by (nonlinear_arith)
            requires
                base >= 1,
        ;
    }
}

/// The number that a text stands for.
pub fn parse_text(s: &str, base: u64, limit: u64) -> (r: Option<u64>)
    requires
        2 <= base <= 16,
    ensures
        match r {
            Some(n) => parse_number(s@, base as nat, limit as nat) == Some(n as nat),
            None => parse_number(s@, base as nat, limit as nat) is None,
        },
{
    let chars = chars_of(s);
    parse_chars(chars.as_slice(), base, limit)
}

/// Reading a number back that was written in the same base gives the number.
pub proof fn written_number_is_read_back(n: nat, base: nat, limit: nat)
    requires
        2 <= base <= 16,
        n <= limit,
    ensures
        parse_number(text::digits(n, base), base, limit) == Some(n),
{
    digits_read_back(n, base);
    assert(text::digits(n, base)[0] != '+') by {
        assert(digit_value(text::digits(n, base)[0]) < base);
    }
}

/// A written number consists of digits, at least one.
pub proof fn digits_are_digits(n: nat, base: nat)
    requires
        2 <= base <= 16,
    ensures
        text::digits(n, base).len() > 0,
        all_digits(text::digits(n, base), base),
{
    digits_read_back(n, base);
}

proof fn digits_read_back(n: nat, base: nat)
    requires
        2 <= base <= 16,
    ensures
        text::digits(n, base).len() > 0,
        all_digits(text::digits(n, base), base),
        number_of(text::digits(n, base), base) == n,
    decreases n,
{
    let d = text::digits(n, base);
    if n < base {
        assert(d =~= seq![text::digit_char(n)]);
        assert(d.drop_last() =~= Seq::<char>::empty());
        assert(number_of(d.drop_last(), base) == 0);
        assert(0 * base == 0) by (nonlinear_arith);
    } else {
        assert(n / base < n) by (nonlinear_arith)
            requires
                n >= base,
                base >= 2,
        ;
        digits_read_back(n / base, base);
        assert(d.drop_last() =~= text::digits(n / base, base));
        assert(n % base < base) by (nonlinear_arith)
            requires
                base >= 2,
        ;
        assert(n == (n / base) * base + n % base) by (nonlinear_arith)
            requires
                base >= 2,
        ;
    }
}

} // verus!

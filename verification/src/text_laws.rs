//! Laws of reading and writing texts.

use crate::order;
use crate::order::sort_texts;
use crate::scan;
use crate::scan::{
    before_char, contains_text, cut_line_end, ends_with, is_blank, is_white_char, lines_of,
    lower_text, parse_text, same_fold, split_once_at, starts_with, trim_text, words_of,
};
use crate::text;
use crate::text::{
    decimal_padded_text, decimal_text, hex_padded_text, hex_text, join_texts, signed_decimal_text,
};
use vstd::prelude::*;

verus! {

/// Whether a text is made of blanks alone: spaces, tabs and ends of lines.
pub open spec fn all_blank(s: Seq<char>) -> bool {
    forall|i: int|
        0 <= i < s.len() ==> (#[trigger] s[i] == ' ' || s[i] == '\t' || s[i] == '\r' || s[i]
            == '\n')
}

/// Whether a character shows: it is a letter, a digit or a sign of ASCII.
pub open spec fn shows(c: char) -> bool {
    '!' <= c <= '~'
}

/// Blanks around a text do not count, and what is left begins and ends with what stood there.
pub proof fn blanks_around_are_dropped(
    front: Seq<char>,
    core: Seq<char>,
    back: Seq<char>,
    s: &str,
    trimmed: String,
    blank: bool,
)
    requires
        s@ == front + core + back,
        all_blank(front),
        all_blank(back),
        core.len() > 0 ==> shows(core[0]) && shows(core.last()),
        call_ensures(trim_text, (s,), trimmed),
        call_ensures(is_blank, (s,), blank),
    ensures
        trimmed@ == core,
        blank == (core.len() == 0),
{
    blanks_around_a_text(front, core, back);
}

/// What is left of a text with blanks around it is the text.
pub proof fn blanks_around_a_text(front: Seq<char>, core: Seq<char>, back: Seq<char>)
    requires
        all_blank(front),
        all_blank(back),
        core.len() > 0 ==> shows(core[0]) && shows(core.last()),
    ensures
        scan::trim(front + core + back) == core,
{
    front_is_dropped(front, core + back);
    assert(front + core + back =~= front + (core + back));
    if core.len() == 0 {
        assert(core + back =~= back + Seq::<char>::empty());
        front_is_dropped(back, Seq::empty());
        assert(scan::trim_start(core + back).len() == 0);
        assert(core =~= Seq::<char>::empty());
    } else {
        assert((core + back)[0] == core[0]);
        back_is_dropped(core, back);
    }
}

proof fn front_is_dropped(front: Seq<char>, rest: Seq<char>)
    requires
        all_blank(front),
    ensures
        scan::trim_start(front + rest) == scan::trim_start(rest),
    decreases front.len(),
{
    if front.len() == 0 {
        assert(front + rest =~= rest);
    } else {
        assert((front + rest)[0] == front[0]);
        assert((front + rest).drop_first() =~= front.drop_first() + rest);
        let left = front.drop_first();
        assert forall|i: int| 0 <= i < left.len() implies (#[trigger] left[i] == ' ' || left[i]
            == '\t' || left[i] == '\r' || left[i] == '\n') by {
            assert(left[i] == front[i + 1]);
        }
        front_is_dropped(left, rest);
    }
}

proof fn back_is_dropped(core: Seq<char>, back: Seq<char>)
    requires
        all_blank(back),
        core.len() > 0,
        shows(core.last()),
    ensures
        scan::trim_end(core + back) == core,
    decreases back.len(),
{
    let s = core + back;
    if back.len() == 0 {
        assert(s =~= core);
    } else {
        assert(s.last() == back.last());
        assert(s.drop_last() =~= core + back.drop_last());
        let left = back.drop_last();
        assert forall|i: int| 0 <= i < left.len() implies (#[trigger] left[i] == ' ' || left[i]
            == '\t' || left[i] == '\r' || left[i] == '\n') by {
            assert(left[i] == back[i]);
        }
        back_is_dropped(core, left);
    }
}

/// No character that shows is a blank, and no character beyond ASCII is one but those that Unicode
/// counts as white space.
pub proof fn blanks_are_known(c: char, r: bool)
    requires
        call_ensures(is_white_char, (c,), r),
    ensures
        shows(c) ==> !r,
        c as u32 <= 8 || (14 <= c as u32 <= 31) ==> !r,
        c as u32 == 32 || (9 <= c as u32 <= 13) ==> r,
        c as u32 == 0x85 || c as u32 == 0xa0 || c as u32 == 0x1680 || c as u32 == 0x3000 ==> r,
        0x2000 <= c as u32 <= 0x200a || c as u32 == 0x2028 || c as u32 == 0x2029 || c as u32
            == 0x202f || c as u32 == 0x205f ==> r,
        0x200b <= c as u32 <= 0x2027 || c as u32 > 0x3000 ==> !r,
{
}

/// Capital letters become small ones, everything else stays, and letters in two sizes are the same
/// where size does not count.
pub proof fn letters_become_small(a: &str, b: &str, small: String, same: bool, i: int)
    requires
        call_ensures(lower_text, (a,), small),
        call_ensures(same_fold, (a, b), same),
        0 <= i < a@.len(),
    ensures
        small@.len() == a@.len(),
        65 <= a@[i] as u32 <= 90 ==> small@[i] as u32 == a@[i] as u32 + 32,
        !(65 <= a@[i] as u32 <= 90) ==> small@[i] == a@[i],
        b@ == small@ ==> same,
        a@.len() != b@.len() ==> !same,
        same ==> a@[i] == b@[i] || a@[i] as u32 == b@[i] as u32 + 32 || b@[i] as u32 == a@[i] as u32
            + 32,
{
    let x = scan::lower_all(a@);
    let y = scan::lower_all(b@);
    assert(x[i] == scan::lower(a@[i]));
    assert(x.len() == a@.len() && y.len() == b@.len());
    if same {
        assert(y[i] == scan::lower(b@[i]));
    }
    if b@ == small@ {
        assert forall|j: int| 0 <= j < x.len() implies y[j] == x[j] by {
            assert(x[j] == scan::lower(a@[j]));
            assert(y[j] == scan::lower(b@[j]));
        }
        assert(x =~= y);
    }
}

/// A text is divided where a character first stands in it.
pub proof fn texts_are_divided_once(
    head: Seq<char>,
    c: char,
    tail: Seq<char>,
    s: &str,
    front: String,
    both: Option<(String, String)>,
)
    requires
        s@ == head.push(c) + tail,
        !head.contains(c),
        call_ensures(before_char, (s, c), front),
        call_ensures(split_once_at, (s, c), both),
    ensures
        front@ == head,
        both matches Some((x, y)) && x@ == head && y@ == tail,
{
    assert(s@[head.len() as int] == c);
    assert forall|i: int| 0 <= i < head.len() implies s@[i] != c by {
        assert(s@[i] == head[i]);
        assert(head.contains(head[i]));
    }
    scan::position_is_first(s@, c, head.len() as int);
    assert(s@.take(head.len() as int) =~= head);
    assert(s@.skip(head.len() as int + 1) =~= tail);
}

/// A text without the character is not divided.
pub proof fn texts_stay_whole(s: &str, c: char, front: String, both: Option<(String, String)>)
    requires
        !s@.contains(c),
        call_ensures(before_char, (s, c), front),
        call_ensures(split_once_at, (s, c), both),
    ensures
        front@ == s@,
        both is None,
{
    scan::position_facts(s@, c);
}

/// A text begins with another if something can be put behind the other to make it, and ends with
/// another if something can be put in front.
pub proof fn beginnings_and_ends_are_found(
    p: &str,
    rest: Seq<char>,
    s: &str,
    begins: bool,
    finishes: bool,
)
    requires
        call_ensures(starts_with, (s, p), begins),
        call_ensures(ends_with, (s, p), finishes),
    ensures
        s@ == p@ + rest ==> begins,
        s@ == rest + p@ ==> finishes,
        begins ==> s@ == p@ + s@.skip(p@.len() as int),
        finishes ==> s@ == s@.take(s@.len() - p@.len()) + p@,
{
    if s@ == p@ + rest {
        assert(s@.take(p@.len() as int) =~= p@);
    }
    if s@ == rest + p@ {
        assert(s@.skip(s@.len() - p@.len()) =~= p@);
    }
}

/// A text is found inside another wherever it stands.
pub proof fn parts_are_found(front: Seq<char>, p: &str, back: Seq<char>, s: &str, found: bool)
    requires
        s@ == front + p@ + back,
        call_ensures(contains_text, (s, p), found),
    ensures
        found,
{
    part_is_found(front, p@, back);
}

/// A text is found inside another wherever it stands.
pub proof fn part_is_found(front: Seq<char>, p: Seq<char>, back: Seq<char>)
    ensures
        scan::find(front + p + back, p) is Some,
    decreases front.len(),
{
    let s = front + p + back;
    if front.len() == 0 {
        assert(s.take(p.len() as int) =~= p);
    } else {
        assert(s.drop_first() =~= front.drop_first() + p + back);
        part_is_found(front.drop_first(), p, back);
    }
}

/// A text that is longer than another, or none of whose places fits, does not hold it.
pub proof fn only_parts_are_found(s: &str, p: &str, found: bool) -> (at: int)
    requires
        call_ensures(contains_text, (s, p), found),
    ensures
        found ==> 0 <= at && at + p@.len() <= s@.len() && s@.subrange(at, at + p@.len()) == p@,
{
    found_part_is_there(s@, p@);
    match scan::find(s@, p@) {
        Some(n) => n as int,
        None => 0,
    }
}

proof fn found_part_is_there(s: Seq<char>, p: Seq<char>)
    ensures
        scan::find(s, p) matches Some(n) ==> n + p.len() <= s.len() && s.subrange(
            n as int,
            n as int + p.len(),
        ) == p,
    decreases s.len(),
{
    if scan::starts(s, p) {
        assert(s.subrange(0, p.len() as int) =~= s.take(p.len() as int));
    } else if s.len() > 0 {
        found_part_is_there(s.drop_first(), p);
        if let Some(n) = scan::find(s.drop_first(), p) {
            assert(s.subrange(n as int + 1, n as int + 1 + p.len()) =~= s.drop_first().subrange(
                n as int,
                n as int + p.len(),
            ));
        }
    }
}

/// The words of a text are what stands between its blanks.
pub proof fn words_stand_between_blanks(
    word: Seq<char>,
    blank: char,
    rest: &str,
    s: &str,
    all: Vec<String>,
    others: Vec<String>,
)
    requires
        word.len() > 0,
        forall|i: int| 0 <= i < word.len() ==> shows(#[trigger] word[i]),
        blank == ' ' || blank == '\t',
        s@ == word.push(blank) + rest@,
        call_ensures(words_of, (s,), all),
        call_ensures(words_of, (rest,), others),
    ensures
        text::views(all@) == seq![word] + text::views(others@),
{
    let t = s@;
    word_is_taken(word, seq![blank] + rest@);
    assert(t =~= word + (seq![blank] + rest@));
    assert(t[0] == word[0]);
    assert(t.take(word.len() as int) =~= word);
    assert(t.skip(word.len() as int) =~= seq![blank] + rest@);
    let left = seq![blank] + rest@;
    assert(left[0] == blank);
    assert(left.drop_first() =~= rest@);
    assert(scan::words(left) == scan::words(rest@));
}

proof fn word_is_taken(word: Seq<char>, rest: Seq<char>)
    requires
        forall|i: int| 0 <= i < word.len() ==> shows(#[trigger] word[i]),
        rest.len() == 0 || scan::is_white(rest[0]),
    ensures
        scan::word_len(word + rest) == word.len(),
    decreases word.len(),
{
    let s = word + rest;
    if word.len() == 0 {
        assert(s =~= rest);
    } else {
        assert(s[0] == word[0]);
        assert(s.drop_first() =~= word.drop_first() + rest);
        let left = word.drop_first();
        assert forall|i: int| 0 <= i < left.len() implies shows(#[trigger] left[i]) by {
            assert(left[i] == word[i + 1]);
        }
        word_is_taken(left, rest);
    }
}

/// A blank in front of a text adds no word to it, and an empty text has none.
pub proof fn blanks_add_no_word(
    blank: char,
    rest: &str,
    s: &str,
    all: Vec<String>,
    others: Vec<String>,
)
    requires
        blank == ' ' || blank == '\t',
        s@ == seq![blank] + rest@,
        call_ensures(words_of, (s,), all),
        call_ensures(words_of, (rest,), others),
    ensures
        text::views(all@) == text::views(others@),
        rest@.len() == 0 ==> others@.len() == 0,
{
    assert(s@[0] == blank);
    assert(s@.drop_first() =~= rest@);
    assert(text::views(others@).len() == others@.len());
}

/// The lines of a text are what stands in front of the ends of lines; a carriage return in front of
/// an end of line belongs to it, and the last line needs no end.
pub proof fn lines_end_with_their_end(
    line: Seq<char>,
    carriage_return: bool,
    rest: &str,
    s: &str,
    all: Vec<String>,
    others: Vec<String>,
)
    requires
        !line.contains('\n'),
        line.len() > 0 ==> line.last() != '\r',
        s@ == line + (if carriage_return {
            seq!['\r', '\n']
        } else {
            seq!['\n']
        }) + rest@,
        call_ensures(lines_of, (s,), all),
        call_ensures(lines_of, (rest,), others),
    ensures
        text::views(all@) == seq![line] + text::views(others@),
        rest@.len() > 0 && !rest@.contains('\n') ==> text::views(others@) == seq![rest@],
        rest@.len() == 0 ==> others@.len() == 0,
{
    let n = line.len() + (if carriage_return {
        1int
    } else {
        0int
    });
    assert(s@[n] == '\n');
    assert forall|i: int| 0 <= i < n implies s@[i] != '\n' by {
        if i < line.len() {
            assert(s@[i] == line[i]);
            assert(line.contains(line[i]));
        }
    }
    scan::position_is_first(s@, '\n', n);
    let front = s@.take(n);
    if carriage_return {
        assert(front.last() == '\r');
        assert(front.drop_last() =~= line);
    } else {
        assert(front =~= line);
    }
    assert(s@.skip(n + 1) =~= rest@);
    assert(text::views(others@).len() == others@.len());
    scan::position_facts(rest@, '\n');
}

/// The ends of lines behind a text are cut off, and nothing else.
pub proof fn line_ends_are_cut(line: Seq<char>, end: Seq<char>, s: &str, r: String)
    requires
        s@ == line + end,
        line.len() > 0 ==> line.last() != '\r' && line.last() != '\n',
        forall|i: int| 0 <= i < end.len() ==> (#[trigger] end[i] == '\r' || end[i] == '\n'),
        call_ensures(cut_line_end, (s,), r),
    ensures
        r@ == line,
{
    end_of_line_is_cut(line, end);
}

/// What is left of a line with its end behind it is the line.
pub proof fn end_of_line_is_cut(line: Seq<char>, end: Seq<char>)
    requires
        line.len() > 0 ==> line.last() != '\r' && line.last() != '\n',
        forall|i: int| 0 <= i < end.len() ==> (#[trigger] end[i] == '\r' || end[i] == '\n'),
    ensures
        scan::without_line_end(line + end) == line,
    decreases end.len(),
{
    let s = line + end;
    if end.len() == 0 {
        assert(s =~= line);
    } else {
        assert(s.last() == end.last());
        assert(s.drop_last() =~= line + end.drop_last());
        end_of_line_is_cut(line, end.drop_last());
    }
}

/// Numbers are read back as they were written, in the tens and in the sixteens; a sign in front may
/// be a plus.
pub proof fn numbers_are_read_back(
    n: u64,
    decimal: String,
    hex: String,
    d: &str,
    h: &str,
    limit: u64,
    read_decimal: Option<u64>,
    read_hex: Option<u64>,
)
    requires
        call_ensures(decimal_text, (n,), decimal),
        call_ensures(hex_text, (n,), hex),
        d@ == decimal@ || d@ == seq!['+'] + decimal@,
        h@ == hex@ || h@ == seq!['+'] + hex@,
        call_ensures(parse_text, (d, 10, limit), read_decimal),
        call_ensures(parse_text, (h, 16, limit), read_hex),
    ensures
        n <= limit ==> read_decimal == Some(n) && read_hex == Some(n),
        n > limit ==> read_decimal is None && read_hex is None,
{
    scan::written_number_is_read_back(n as nat, 10, u64::MAX as nat);
    scan::written_number_is_read_back(n as nat, 16, u64::MAX as nat);
    scan::digits_are_digits(n as nat, 10);
    scan::digits_are_digits(n as nat, 16);
    assert(scan::digit_value('+') == 16);
    let a = text::digits(n as nat, 10);
    let b = text::digits(n as nat, 16);
    assert(scan::digit_value(a[0]) < 10);
    assert(scan::digit_value(b[0]) < 16);
    assert((seq!['+'] + a).drop_first() =~= a);
    assert((seq!['+'] + b).drop_first() =~= b);
}

/// A text that holds anything but digits is no number.
pub proof fn other_texts_are_no_numbers(s: &str, limit: u64, i: int, r: Option<u64>)
    requires
        call_ensures(parse_text, (s, 10, limit), r),
    ensures
        s@.len() == 0 ==> r is None,
        0 < i < s@.len() && !('0' <= s@[i] <= '9') ==> r is None,
        s@.len() > 0 && !('0' <= s@[0] <= '9') && s@[0] != '+' ==> r is None,
        s@ == seq!['+'] ==> r is None,
{
    if 0 < i < s@.len() && !('0' <= s@[i] <= '9') {
        if s@[0] == '+' {
            assert(s@.drop_first()[i - 1] == s@[i]);
        }
        assert(scan::digit_value(s@[i]) >= 10);
    }
    if s@.len() > 0 && !('0' <= s@[0] <= '9') && s@[0] != '+' {
        assert(scan::digit_value(s@[0]) >= 10);
    }
    if s@ == seq!['+'] {
        assert(s@.drop_first().len() == 0);
    }
}

/// Small numbers are written as one digit, and a number that is larger ends with its last digit
/// behind the text of the others.
pub proof fn digits_stand_in_order(n: u64, whole: String, front: String)
    requires
        call_ensures(decimal_text, (n,), whole),
        call_ensures(decimal_text, ((n / 10) as u64,), front),
    ensures
        n < 10 ==> whole@.len() == 1 && whole@[0] as u32 == 48 + n,
        n >= 10 ==> whole@.drop_last() == front@ && whole@.last() as u32 == 48 + n % 10,
{
    let w = text::digits(n as nat, 10);
    if n >= 10 {
        assert(n as nat / 10 == (n / 10) as nat);
        assert(w.drop_last() =~= text::digits(n as nat / 10, 10));
    }
}

/// Numbers in the sixteens use the small letters, and stand behind as many zeros as it takes to
/// reach a width.
pub proof fn sixteens_are_written_small(
    n: u64,
    width: usize,
    hex: String,
    padded: String,
    padded_decimal: String,
    decimal: String,
    i: int,
)
    requires
        call_ensures(hex_text, (n,), hex),
        call_ensures(decimal_text, (n,), decimal),
        call_ensures(hex_padded_text, (n, width), padded),
        call_ensures(decimal_padded_text, (n, width), padded_decimal),
    ensures
        n < 10 ==> hex@.len() == 1 && hex@[0] as u32 == 48 + n,
        10 <= n < 16 ==> hex@.len() == 1 && hex@[0] as u32 == 87 + n,
        n >= 16 && n % 16 < 10 ==> hex@.last() as u32 == 48 + n % 16,
        n >= 16 && n % 16 >= 10 ==> hex@.last() as u32 == 87 + n % 16,
        padded@.len() >= width && padded@.len() >= hex@.len(),
        padded@.len() == width || padded@ == hex@,
        padded@.skip(padded@.len() - hex@.len()) == hex@,
        0 <= i < padded@.len() - hex@.len() ==> padded@[i] == '0',
        padded_decimal@.len() >= width && padded_decimal@.len() >= decimal@.len(),
        padded_decimal@.len() == width || padded_decimal@ == decimal@,
        padded_decimal@.skip(padded_decimal@.len() - decimal@.len()) == decimal@,
        0 <= i < padded_decimal@.len() - decimal@.len() ==> padded_decimal@[i] == '0',
{
    assert(padded@.skip(padded@.len() - hex@.len()) =~= hex@);
    assert(padded_decimal@.skip(padded_decimal@.len() - decimal@.len()) =~= decimal@);
}

/// A negative number is written with a minus in front of the number without its sign.
pub proof fn signs_are_written_in_front(n: i64, r: String, other: String)
    requires
        n > i64::MIN,
        call_ensures(signed_decimal_text, (n,), r),
        call_ensures(signed_decimal_text, ((-n) as i64,), other),
    ensures
        n < 0 ==> r@ == seq!['-'] + other@,
        n >= 0 ==> r@[0] != '-',
{
    scan::digits_are_digits(n as nat, 10);
    if n >= 0 {
        let d = text::digits(n as nat, 10);
        assert(scan::digit_value(d[0]) < 10);
    }
}

/// A list that is joined is its parts with the separator between any two: the first part, and behind
/// a separator the others.
pub proof fn parts_are_joined(
    parts: &[String],
    others: &[String],
    separator: &str,
    r: String,
    rest: String,
)
    requires
        parts@.len() > 0,
        others@ == parts@.drop_first(),
        call_ensures(join_texts, (parts, separator), r),
        call_ensures(join_texts, (others, separator), rest),
    ensures
        parts@.len() == 1 ==> r@ == parts@[0]@ && rest@.len() == 0,
        parts@.len() > 1 ==> r@ == parts@[0]@ + separator@ + rest@,
{
    let all = text::views(parts@);
    assert(text::views(others@) =~= all.drop_first());
    if parts@.len() > 1 {
        joined_from_the_front(all, separator@);
    }
}

proof fn joined_from_the_front(all: Seq<Seq<char>>, separator: Seq<char>)
    requires
        all.len() > 1,
    ensures
        text::joined(all, separator) == all[0] + separator + text::joined(
            all.drop_first(),
            separator,
        ),
    decreases all.len(),
{
    let rest = all.drop_first();
    if all.len() == 2 {
        assert(text::joined(all.drop_last(), separator) == all[0]);
        assert(text::joined(rest, separator) == all[1]);
        assert(all.last() == all[1]);
    } else {
        joined_from_the_front(all.drop_last(), separator);
        assert(all.drop_last().drop_first() =~= rest.drop_last());
        assert(text::joined(all, separator) =~= all[0] + separator + text::joined(rest, separator));
    }
}

/// Sorted texts are the same texts, and where two differ, the one with the smaller character at the
/// first such place comes first; a text comes before any that goes on behind it.
pub proof fn texts_are_sorted(
    v: &[String],
    r: Vec<String>,
    common: Seq<char>,
    a: char,
    b: char,
    x: Seq<char>,
    y: Seq<char>,
    i: int,
    j: int,
)
    requires
        call_ensures(sort_texts, (v,), r),
        0 <= i < j < r@.len(),
        a < b,
    ensures
        text::views(r@).to_multiset() == text::views(v@).to_multiset(),
        !(r@[i]@ == common.push(b) + x && r@[j]@ == common.push(a) + y),
        !(r@[i]@ == common.push(b) + x && r@[j]@ == common),
{
    order::sort_sorts(text::views(v@));
    let s = text::views(r@);
    assert(order::text_le(s[i], s[j]));
    larger_comes_later(common, b, x, a, y);
    assert(order::text_le(r@[i]@, r@[j]@));
}

proof fn larger_comes_later(common: Seq<char>, b: char, x: Seq<char>, a: char, y: Seq<char>)
    requires
        a < b,
    ensures
        !order::text_le(common.push(b) + x, common.push(a) + y),
        !order::text_le(common.push(b) + x, common),
    decreases common.len(),
{
    let p = common.push(b) + x;
    let q = common.push(a) + y;
    if common.len() == 0 {
        assert(p[0] == b && q[0] == a);
    } else {
        assert(p[0] == common[0] && q[0] == common[0]);
        assert(p.drop_first() =~= common.drop_first().push(b) + x);
        assert(q.drop_first() =~= common.drop_first().push(a) + y);
        larger_comes_later(common.drop_first(), b, x, a, y);
    }
}

} // verus!

//! Laws of paths, of what is checked in texts, of ids and of log files.

use crate::error::{DbgFlowError, ErrorView};
use crate::ids;
use crate::ids::SessionId;
use crate::logging;
use crate::logging::{civil_from_days, is_managed_log_file, log_file_name, FileLogSink};
use crate::scan;
use crate::text;
use crate::validation::{
    contains_control, contains_line_break, has_parent_component, is_control_char,
    path_text_has_separator,
};
use crate::winpath;
use crate::winpath::{
    extension_of, file_name, join, normalize_absolute_required, normalize_path_lexically,
    parse_path, path_starts_with_case_insensitive, same_path, PathParts, PrefixKind,
};
use vstd::prelude::*;

verus! {

/// Whether a text can be the name of a file: it is not empty, holds no separator and no colon, and
/// is not made of dots.
pub open spec fn plain(name: Seq<char>) -> bool {
    &&& name.len() > 0
    &&& forall|i: int| 0 <= i < name.len() ==> (#[trigger] name[i]) != '\\' && name[i] != '/'
    &&& !name.contains(':')
    &&& name != "."@
    &&& name != ".."@
}

/// Whether a character separates names: a slash of either kind.
pub open spec fn slash(c: char) -> bool {
    c == '\\' || c == '/'
}

/// A path on a drive with two names.
pub open spec fn two_names(
    letter: char,
    s1: char,
    first: Seq<char>,
    s2: char,
    second: Seq<char>,
) -> Seq<char> {
    seq![letter, ':', s1] + (first + (seq![s2] + second))
}

proof fn name_is_measured(name: Seq<char>, rest: Seq<char>)
    requires
        forall|i: int| 0 <= i < name.len() ==> (#[trigger] name[i]) != '\\' && name[i] != '/',
        rest.len() == 0 || slash(rest[0]),
    ensures
        winpath::name_len(name + rest, false) == name.len(),
    decreases name.len(),
{
    let s = name + rest;
    if name.len() == 0 {
        assert(s =~= rest);
    } else {
        assert(s[0] == name[0]);
        assert(s.drop_first() =~= name.drop_first() + rest);
        let left = name.drop_first();
        assert forall|i: int| 0 <= i < left.len() implies (#[trigger] left[i]) != '\\' && left[i]
            != '/' by {
            assert(left[i] == name[i + 1]);
        }
        name_is_measured(left, rest);
    }
}

proof fn name_is_taken(name: Seq<char>, sep: char, rest: Seq<char>)
    requires
        name.len() > 0,
        name != "."@,
        forall|i: int| 0 <= i < name.len() ==> (#[trigger] name[i]) != '\\' && name[i] != '/',
        slash(sep),
    ensures
        winpath::names(name + (seq![sep] + rest), false) == seq![name] + winpath::names(
            rest,
            false,
        ),
        winpath::names(name, false) == seq![name],
{
    let s = name + (seq![sep] + rest);
    name_is_measured(name, seq![sep] + rest);
    assert(s.take(name.len() as int) =~= name);
    assert(s.skip(name.len() as int + 1) =~= rest);
    name_is_measured(name, Seq::empty());
    assert(name + Seq::<char>::empty() =~= name);
    assert(name.take(name.len() as int) =~= name);
    assert(winpath::names(name, false) =~= seq![name]);
}

proof fn drive_path_is_taken_apart(
    letter: char,
    s1: char,
    first: Seq<char>,
    s2: char,
    second: Seq<char>,
)
    requires
        'a' <= letter <= 'z' || 'A' <= letter <= 'Z',
        slash(s1) && slash(s2),
        first.len() > 0 && second.len() > 0,
        first != "."@ && second != "."@,
        forall|i: int| 0 <= i < first.len() ==> (#[trigger] first[i]) != '\\' && first[i] != '/',
        forall|i: int| 0 <= i < second.len() ==> (#[trigger] second[i]) != '\\' && second[i] != '/',
    ensures
        ({
            let v = winpath::parts(two_names(letter, s1, first, s2, second));
            &&& v.kind == PrefixKind::Drive
            &&& v.prefix == seq![letter, ':']
            &&& v.rooted
            &&& v.names == seq![first, second]
        }),
{
    let s = two_names(letter, s1, first, s2, second);
    reveal_strlit("\\\\?\\UNC\\");
    reveal_strlit("\\\\?\\");
    reveal_strlit(".");
    assert(s[0] == letter && s[1] == ':' && s[2] == s1);
    if scan::starts(s, "\\\\?\\UNC\\"@) {
        assert(s.take(8)[0] == '\\');
    }
    if scan::starts(s, "\\\\?\\"@) {
        assert(s.take(4)[0] == '\\');
    }
    assert(s.take(2) =~= seq![letter, ':']);
    let rest = s.skip(2);
    let tail = first + (seq![s2] + second);
    assert(rest[0] == s1);
    assert(winpath::name_len(rest, false) == 0);
    assert(rest.take(0).len() == 0);
    assert("."@.len() == 1);
    assert(rest.skip(1) =~= tail);
    name_is_taken(first, s2, second);
    name_is_taken(second, s2, Seq::empty());
    assert(winpath::names(rest, false) == winpath::names(tail, false));
    assert(winpath::parts(s).names =~= seq![first, second]);
}

/// A path on a drive is taken apart into the drive and the names between the slashes, whichever
/// slashes they are; its last name is the name of the file.
pub proof fn drive_paths_are_taken_apart(
    letter: char,
    s1: char,
    first: Seq<char>,
    s2: char,
    second: Seq<char>,
    path: &str,
    parts: PathParts,
    name: Option<String>,
    label: &str,
    absolute: Result<String, String>,
    normal: Result<String, String>,
)
    requires
        'a' <= letter <= 'z' || 'A' <= letter <= 'Z',
        slash(s1) && slash(s2),
        plain(first) && plain(second),
        path@ == two_names(letter, s1, first, s2, second),
        call_ensures(parse_path, (path,), parts),
        call_ensures(file_name, (path,), name),
        call_ensures(normalize_absolute_required, (path, label), absolute),
        call_ensures(normalize_path_lexically, (path,), normal),
    ensures
        parts.kind is Drive && parts.rooted,
        parts.prefix@ == seq![letter, ':'],
        text::views(parts.names@) == seq![first, second],
        text::view_opt(name) == Some(second),
        normal matches Ok(p) && p@ == two_names(letter, '\\', first, '\\', second),
        absolute matches Ok(p) && p@ == two_names(letter, '\\', first, '\\', second),
{
    drive_path_is_taken_apart(letter, s1, first, s2, second);
    let v = winpath::parts(path@);
    let all = seq![first, second];
    assert(!winpath::begins_with_drive(first) && !winpath::begins_with_drive(second)) by {
        if winpath::begins_with_drive(first) {
            assert(first.contains(first[1]));
        }
        if winpath::begins_with_drive(second) {
            assert(second.contains(second[1]));
        }
    }
    reveal_with_fuel(winpath::resolved, 3);
    assert(all.drop_last() =~= seq![first]);
    assert(seq![first].drop_last() =~= Seq::<Seq<char>>::empty());
    let left = winpath::PartsView { names: all, ..v };
    assert(v.front().names.push(first).push(second) =~= all);
    assert(v.resolve() == Some(left));
    reveal_strlit("\\");
    reveal_with_fuel(text::joined, 3);
    assert(text::joined(all, "\\"@) =~= first + "\\"@ + second);
    assert(left.written() =~= two_names(letter, '\\', first, '\\', second));
}

/// A name that leads to the parent takes the name in front of it away, and leads nowhere at the
/// root.
pub proof fn parents_take_names_away(
    letter: char,
    first: Seq<char>,
    path: &str,
    outside: &str,
    normal: Result<String, String>,
    refused: Result<String, String>,
    climbing: bool,
)
    requires
        'a' <= letter <= 'z' || 'A' <= letter <= 'Z',
        plain(first),
        path@ == two_names(letter, '\\', first, '\\', ".."@),
        outside@ == two_names(letter, '\\', ".."@, '\\', first),
        call_ensures(normalize_path_lexically, (path,), normal),
        call_ensures(normalize_path_lexically, (outside,), refused),
        call_ensures(has_parent_component, (path,), climbing),
    ensures
        normal matches Ok(p) && p@ == seq![letter, ':', '\\'],
        refused is Err,
        climbing,
{
    reveal_strlit("..");
    reveal_strlit(".");
    let up = ".."@;
    assert(up.len() == 2 && up[0] == '.' && up[1] == '.' && "."@.len() == 1);
    drive_path_is_taken_apart(letter, '\\', first, '\\', up);
    drive_path_is_taken_apart(letter, '\\', up, '\\', first);
    assert(!winpath::begins_with_drive(first)) by {
        if winpath::begins_with_drive(first) {
            assert(first.contains(first[1]));
        }
    }
    reveal_with_fuel(winpath::resolved, 3);
    let a = seq![first, up];
    let b = seq![up, first];
    assert(a.drop_last() =~= seq![first]);
    assert(b.drop_last() =~= seq![up]);
    assert(seq![first].drop_last() =~= Seq::<Seq<char>>::empty());
    assert(seq![up].drop_last() =~= Seq::<Seq<char>>::empty());
    let v = winpath::parts(path@);
    assert(v.front().names.push(first).drop_last() =~= Seq::<Seq<char>>::empty());
    assert(v.resolve() == Some(v.front()));
    reveal_strlit("\\");
    assert(text::joined(Seq::<Seq<char>>::empty(), "\\"@) =~= Seq::<char>::empty());
    assert(v.front().written() =~= seq![letter, ':', '\\']);
    assert(v.names[1] == up);
    assert(v.names.contains(up));
}

/// A share is named by a server and a share behind two slashes, whichever slashes they are; it names
/// a place by itself.
pub proof fn shares_are_named_by_two_names(
    s1: char,
    s2: char,
    server: Seq<char>,
    s3: char,
    share: Seq<char>,
    rest: Seq<char>,
    path: &str,
    parts: PathParts,
    absolute: bool,
)
    requires
        slash(s1) && slash(s2) && slash(s3),
        plain(server) && plain(share),
        server != "?"@,
        rest.len() == 0 || slash(rest[0]),
        path@ == seq![s1, s2] + (server + (seq![s3] + (share + rest))),
        call_ensures(parse_path, (path,), parts),
        call_ensures(PathParts::is_absolute, (&parts,), absolute),
    ensures
        parts.kind is Share,
        parts.prefix@ == seq![s1, s2] + (server + (seq![s3] + share)),
        parts.rooted <==> rest.len() > 0,
        absolute,
{
    let s = path@;
    reveal_strlit("\\\\?\\UNC\\");
    reveal_strlit("\\\\?\\");
    reveal_strlit(".");
    reveal_strlit("?");
    let tail = server + (seq![s3] + (share + rest));
    assert(s.skip(2) =~= tail);
    assert(s[0] == s1 && s[1] == s2 && s[2] == server[0]);
    assert(server.len() > 1 ==> s[3] == server[1]);
    assert(server.len() == 1 ==> s[3] == s3);
    assert(server.len() == 1 && server[0] == '?' ==> server =~= "?"@);
    assert(server.len() == 1 && server[0] == '.' ==> server =~= "."@);
    if scan::starts(s, "\\\\?\\"@) {
        assert(s.take(4)[2] == '?' && s.take(4)[3] == '\\');
    }
    if scan::starts(s, "\\\\?\\UNC\\"@) {
        assert(s.take(8)[2] == '?' && s.take(8)[3] == '\\');
    }
    name_is_measured(server, seq![s3] + (share + rest));
    name_is_measured(share, rest);
    assert(tail.skip(server.len() as int + 1) =~= share + rest);
    let n = 2 + server.len() + 1 + share.len();
    assert(winpath::prefix(s) == (PrefixKind::Share, n as nat));
    assert(s.take(n as int) =~= seq![s1, s2] + (server + (seq![s3] + share)));
    assert(s.skip(n as int) =~= rest);
}

/// Paths on one drive are the same whichever size its letter has.
pub proof fn drive_letters_have_no_size(
    letter: char,
    first: Seq<char>,
    second: Seq<char>,
    small: &str,
    large: &str,
    same: bool,
)
    requires
        'a' <= letter <= 'z',
        plain(first) && plain(second),
        small@ == two_names(letter, '\\', first, '\\', second),
        large@ == two_names((letter as u32 - 32) as char, '\\', first, '\\', second),
        call_ensures(same_path, (small, large), same),
    ensures
        same,
{
    let big = (letter as u32 - 32) as char;
    assert('A' <= big <= 'Z');
    drive_path_is_taken_apart(letter, '\\', first, '\\', second);
    drive_path_is_taken_apart(big, '\\', first, '\\', second);
    let a = winpath::parts(small@);
    let b = winpath::parts(large@);
    assert(scan::lower_all(seq![letter, ':']) =~= scan::lower_all(seq![big, ':']));
    assert(a.components() =~= b.components());
}

/// A path without a drive and without slashes in front names no place by itself.
pub proof fn names_alone_are_not_absolute(
    name: Seq<char>,
    path: &str,
    label: &str,
    last: Option<String>,
    absolute: Result<String, String>,
)
    requires
        plain(name),
        path@ == name,
        call_ensures(file_name, (path,), last),
        call_ensures(normalize_absolute_required, (path, label), absolute),
    ensures
        text::view_opt(last) == Some(name),
        absolute matches Err(e) && e@ == label@ + " must be an absolute path: "@ + name,
{
    name_is_relative(name);
    let v = winpath::parts(name);
    reveal_with_fuel(winpath::resolved, 2);
}

proof fn name_is_relative(name: Seq<char>)
    requires
        plain(name),
    ensures
        winpath::parts(name).kind is Relative,
        winpath::parts(name).names == seq![name],
        winpath::parts(name).prefix.len() == 0,
        !winpath::parts(name).rooted,
{
    reveal_strlit("\\\\?\\UNC\\");
    reveal_strlit("\\\\?\\");
    if scan::starts(name, "\\\\?\\UNC\\"@) {
        assert(name.take(8)[0] == '\\');
        assert(name[0] == '\\');
    }
    if scan::starts(name, "\\\\?\\"@) {
        assert(name.take(4)[0] == '\\');
        assert(name[0] == '\\');
    }
    assert(name[0] != '\\' && name[0] != '/');
    if name.len() >= 2 && name[1] == ':' {
        assert(name.contains(name[1]));
    }
    assert(name.skip(0) =~= name);
    name_is_taken(name, '\\', Seq::empty());
    name_is_measured(name, Seq::empty());
    assert(name + Seq::<char>::empty() =~= name);
    assert(name.take(name.len() as int) =~= name);
    assert(winpath::parts(name).names =~= seq![name]);
}

/// The extension of a name is what stands behind its last dot; a name with a dot only in front, or
/// with none, has no extension.
pub proof fn extensions_stand_behind_the_last_dot(
    base: Seq<char>,
    end: Seq<char>,
    path: &str,
    r: Option<String>,
)
    requires
        plain(path@),
        call_ensures(extension_of, (path,), r),
    ensures
        path@ == base.push('.') + end && base.len() > 0 && !end.contains('.') ==> text::view_opt(r)
            == Some(end),
        path@ == seq!['.'] + end && !end.contains('.') ==> r is None,
        !path@.contains('.') ==> r is None,
{
    name_is_relative(path@);
    let s = path@;
    if s == base.push('.') + end && !end.contains('.') {
        last_dot(base, end);
        assert(s.skip(base.len() as int + 1) =~= end);
    }
    if s == seq!['.'] + end && !end.contains('.') {
        assert(s =~= Seq::<char>::empty().push('.') + end);
        last_dot(Seq::empty(), end);
    }
    if !s.contains('.') {
        no_dot(s);
    }
}

proof fn last_dot(base: Seq<char>, end: Seq<char>)
    requires
        !end.contains('.'),
    ensures
        scan::last_position(base.push('.') + end, '.') == Some(base.len()),
    decreases end.len(),
{
    let s = base.push('.') + end;
    if end.len() == 0 {
        assert(s =~= base.push('.'));
        assert(s.last() == '.');
    } else {
        assert(s.last() == end.last());
        assert(end.contains(end.last()));
        assert(s.drop_last() =~= base.push('.') + end.drop_last());
        let left = end.drop_last();
        assert(!left.contains('.')) by {
            if left.contains('.') {
                let i = choose|i: int| 0 <= i < left.len() && left[i] == '.';
                assert(end[i] == '.');
            }
        }
        last_dot(base, left);
    }
}

proof fn no_dot(s: Seq<char>)
    requires
        !s.contains('.'),
    ensures
        scan::last_position(s, '.') is None,
    decreases s.len(),
{
    if s.len() > 0 {
        assert(s.contains(s.last()));
        let left = s.drop_last();
        assert(!left.contains('.')) by {
            if left.contains('.') {
                let i = choose|i: int| 0 <= i < left.len() && left[i] == '.';
                assert(s[i] == '.');
            }
        }
        no_dot(left);
    }
}

/// A name is put behind a directory with one backslash between them, unless the directory ends with
/// a slash, is empty, or is a drive alone.
pub proof fn names_are_put_behind_directories(dir: &str, name: &str, r: String)
    requires
        call_ensures(join, (dir, name), r),
    ensures
        dir@.len() == 0 ==> r@ == name@,
        dir@.len() > 0 && slash(dir@.last()) ==> r@ == dir@ + name@,
        dir@.len() == 2 && 'A' <= dir@[0] <= 'Z' && dir@[1] == ':' ==> r@ == dir@ + name@,
        dir@.len() > 2 && !slash(dir@.last()) ==> r@ == dir@ + seq!['\\'] + name@,
{
    reveal_strlit("\\");
    assert("\\"@ =~= seq!['\\']);
    if dir@.len() == 0 {
        assert(dir@ + name@ =~= name@);
    }
}

/// A path lies under itself, and a file lies under its directory.
pub proof fn files_lie_under_their_directory(
    letter: char,
    first: Seq<char>,
    second: Seq<char>,
    path: &str,
    same: bool,
    inside: bool,
    base: &str,
)
    requires
        'a' <= letter <= 'z',
        plain(first) && plain(second),
        path@ == two_names(letter, '\\', first, '\\', second),
        base@ == seq![letter, ':', '\\'] + first,
        call_ensures(path_starts_with_case_insensitive, (path, path), same),
        call_ensures(path_starts_with_case_insensitive, (path, base), inside),
    ensures
        same,
        inside,
{
    drive_path_is_taken_apart(letter, '\\', first, '\\', second);
    let v = winpath::parts(path@);
    let p = v.components();
    assert(p.take(p.len() as int) =~= p);
    let s = base@;
    reveal_strlit("\\\\?\\UNC\\");
    reveal_strlit("\\\\?\\");
    reveal_strlit(".");
    assert(s[0] == letter && s[1] == ':' && s[2] == '\\');
    if scan::starts(s, "\\\\?\\UNC\\"@) {
        assert(s.take(8)[0] == '\\');
    }
    if scan::starts(s, "\\\\?\\"@) {
        assert(s.take(4)[0] == '\\');
    }
    assert(s.take(2) =~= seq![letter, ':']);
    let rest = s.skip(2);
    assert(rest[0] == '\\');
    assert(winpath::name_len(rest, false) == 0);
    assert(rest.take(0).len() == 0);
    assert("."@.len() == 1);
    assert(rest.skip(1) =~= first);
    name_is_taken(first, '\\', Seq::empty());
    let w = winpath::parts(s);
    assert(w.names =~= seq![first]);
    let b = w.components();
    assert(b.len() == 3 && p.len() == 4);
    assert(p.take(3) =~= b);
}

/// Control characters are those below the space and around the end of ASCII; the separators of lines
/// and paragraphs break lines too.
pub proof fn control_characters_are_known(
    c: char,
    control: bool,
    s: &str,
    has_control: bool,
    has_break: bool,
    has_separator: bool,
)
    requires
        call_ensures(is_control_char, (c,), control),
        call_ensures(contains_control, (s,), has_control),
        call_ensures(contains_line_break, (s,), has_break),
        call_ensures(path_text_has_separator, (s,), has_separator),
    ensures
        control <==> c as u32 <= 0x1f || 0x7f <= c as u32 <= 0x9f,
        s@.contains(c) && control ==> has_control && has_break,
        s@.contains(c) && (c as u32 == 0x2028 || c as u32 == 0x2029) ==> has_break,
        (forall|i: int| 0 <= i < s@.len() ==> ' ' <= (#[trigger] s@[i]) <= '~') ==> !has_control
            && !has_break,
        has_separator <==> s@.contains('\\') || s@.contains('/'),
{
    if s@.contains(c) {
        let i = choose|i: int| 0 <= i < s@.len() && s@[i] == c;
        assert(s@[i] == c);
    }
}

/// Ids are written as thirty-two digits in groups of eight, four, four, four and twelve.
pub proof fn ids_are_written_in_groups(id: SessionId, r: String)
    requires
        call_ensures(SessionId::to_text, (&id,), r),
    ensures
        r@.len() == 36,
        r@[8] == '-' && r@[13] == '-' && r@[18] == '-' && r@[23] == '-',
        r@.subrange(0, 8) + r@.subrange(9, 13) + r@.subrange(14, 18) + r@.subrange(19, 23)
            + r@.subrange(24, 36) == text::zero_padded(text::hex(id.0 as nat), 32),
{
    let d = ids::uuid_digits(id.0);
    reveal_with_fuel(sixteens, 33);
    assert(sixteens(32) == 0x1_0000_0000_0000_0000_0000_0000_0000_0000nat);
    hex_is_short(id.0 as nat, 32);
    assert(d.len() == 32);
    let t = r@;
    assert(t.subrange(0, 8) + t.subrange(9, 13) + t.subrange(14, 18) + t.subrange(19, 23)
        + t.subrange(24, 36) =~= d);
}

/// Sixteen to a power.
spec fn sixteens(digits: nat) -> nat
    decreases digits,
{
    if digits == 0 {
        1
    } else {
        16 * sixteens((digits - 1) as nat)
    }
}

proof fn hex_is_short(n: nat, digits: nat)
    requires
        digits > 0,
        n < sixteens(digits),
    ensures
        text::hex(n).len() <= digits,
    decreases digits,
{
    if n >= 16 {
        let less = (digits - 1) as nat;
        if less == 0 {
            assert(sixteens(0) == 1);
        } else {
            hex_is_short(n / 16, less);
        }
    }
}

/// Days are counted from the first of January 1970, and each next day is the next date: the next of
/// the month, the first of the next month, or the first of the next year.
pub proof fn days_follow_each_other(
    day: i64,
    today: (i32, u32, u32),
    tomorrow: (i32, u32, u32),
    epoch: (i32, u32, u32),
)
    requires
        -1000000 <= day <= 1000000,
        call_ensures(civil_from_days, (day,), today),
        call_ensures(civil_from_days, ((day + 1) as i64,), tomorrow),
        call_ensures(civil_from_days, (0,), epoch),
    ensures
        epoch == (1970i32, 1u32, 1u32),
        ({
            let (y, m, d) = today;
            let last = if m == 2 {
                if y % 4 == 0 && (y % 100 != 0 || y % 400 == 0) {
                    29u32
                } else {
                    28u32
                }
            } else if m == 4 || m == 6 || m == 9 || m == 11 {
                30u32
            } else {
                31u32
            };
            &&& 1 <= m <= 12 && 1 <= d <= last
            &&& d < last ==> tomorrow == (y, m, (d + 1) as u32)
            &&& d == last && m < 12 ==> tomorrow == (y, (m + 1) as u32, 1u32)
            &&& d == last && m == 12 ==> tomorrow == ((y + 1) as i32, 1u32, 1u32)
        }),
{
    let (y, m, d) = today;
    let (y2, m2, d2) = tomorrow;
    let yi = y as int;
    let mi = m as int;
    let di = d as int;
    assert(logging::day_number(1970, 1, 1) == 0);
    logging::dates_are_unique(epoch.0 as int, epoch.1 as int, epoch.2 as int, 1970, 1, 1);
    let last = logging::month_length(yi, mi);
    if di < last {
        logging::dates_are_unique(y2 as int, m2 as int, d2 as int, yi, mi, di + 1);
    } else if mi < 12 {
        assert(logging::days_before_month(yi, mi + 1) == logging::days_before_month(yi, mi) + last);
        logging::dates_are_unique(y2 as int, m2 as int, d2 as int, yi, mi + 1, 1);
    } else {
        year_has_its_days(yi);
        assert(logging::days_before_month(yi + 1, 1) == 0);
        logging::dates_are_unique(y2 as int, m2 as int, d2 as int, yi + 1, 1, 1);
    }
}

proof fn year_has_its_days(y: int)
    ensures
        logging::days_before_year(y + 1) == logging::days_before_year(y)
            + logging::days_before_month(y, 12) + 31,
{
    reveal_with_fuel(logging::days_before_month, 13);
    let leap = if logging::is_leap(y) {
        1int
    } else {
        0int
    };
    assert(logging::days_before_month(y, 12) == 334 + leap);
    assert(y / 4 - (y - 1) / 4 == (if y % 4 == 0 {
        1int
    } else {
        0int
    }));
    assert(y / 100 - (y - 1) / 100 == (if y % 100 == 0 {
        1int
    } else {
        0int
    }));
    assert(y / 400 - (y - 1) / 400 == (if y % 400 == 0 {
        1int
    } else {
        0int
    }));
    assert(logging::leap_years_before(y + 1) - logging::leap_years_before(y) == leap);
}

/// The log of a moment is named by its day, and stands in the directory of logs.
pub proof fn logs_are_named_by_their_day(
    ms: u64,
    sink: FileLogSink,
    name: String,
    file: String,
) -> (date: (int, int, int))
    requires
        call_ensures(log_file_name, (ms,), name),
        call_ensures(FileLogSink::file_for, (&sink, ms), file),
    ensures
        logging::is_date(date.0, date.1, date.2),
        logging::day_number(date.0, date.1, date.2) == ms / 86400000,
        name@ == "dbgflow-"@ + (text::zero_padded(text::decimal(date.0 as nat), 4) + "-"@
            + text::zero_padded(text::decimal(date.1 as nat), 2) + "-"@ + text::zero_padded(
            text::decimal(date.2 as nat),
            2,
        )) + ".jsonl"@,
        file@ == winpath::joined_path(sink.log_dir@, name@),
{
    let (y, m, d) = choose|y: int, m: int, d: int|
        logging::is_date(y, m, d) && #[trigger] logging::day_number(y, m, d) == logging::day_of(ms)
            && name@ == logging::log_name(y, m, d);
    let (y2, m2, d2) = choose|y2: int, m2: int, d2: int|
        logging::is_date(y2, m2, d2) && #[trigger] logging::day_number(y2, m2, d2)
            == logging::day_of(ms) && file@ == winpath::joined_path(
            sink.log_dir@,
            logging::log_name(y2, m2, d2),
        );
    logging::dates_are_unique(y, m, d, y2, m2, d2);
    (y, m, d)
}

/// Logs are kept for as many days as are set, and only logs are ever removed.
pub proof fn logs_are_kept_for_their_time(
    dir: &str,
    days: u64,
    sink: FileLogSink,
    path: &str,
    modified: u64,
    now: u64,
    expired: bool,
    managed: bool,
)
    requires
        days <= 100000,
        call_ensures(FileLogSink::new, (dir, days), sink),
        call_ensures(FileLogSink::is_expired, (&sink, path, modified, now), expired),
        call_ensures(is_managed_log_file, (path,), managed),
    ensures
        sink.log_dir@ == dir@,
        sink.retention_seconds == days * 86400,
        expired <==> managed && modified + days * 86400000 < now,
{
}

/// A file is a log if its name begins and ends as those of logs do, or if it is the log of the
/// service.
pub proof fn logs_are_known_by_name(name: Seq<char>, middle: Seq<char>, path: &str, r: bool)
    requires
        plain(name),
        path@ == name,
        call_ensures(is_managed_log_file, (path,), r),
    ensures
        name == "dbgflow-"@ + middle + ".jsonl"@ ==> r,
        name == "service.log"@ ==> r,
        r && name != "service.log"@ ==> scan::starts(name, "dbgflow-"@) && scan::ends(
            name,
            ".jsonl"@,
        ),
{
    name_is_relative(name);
    reveal_strlit("dbgflow-");
    reveal_strlit(".jsonl");
    if name == "dbgflow-"@ + middle + ".jsonl"@ {
        assert(name.take(8) =~= "dbgflow-"@);
        assert(name.skip(name.len() - 6) =~= ".jsonl"@);
    }
}

/// An error says its text, whatever kind it is.
pub proof fn errors_say_their_text(error: DbgFlowError, r: String, text: &str, made: DbgFlowError)
    requires
        call_ensures(DbgFlowError::message, (&error,), r),
        call_ensures(DbgFlowError::backend, (text,), made),
    ensures
        error matches DbgFlowError::Backend(s) ==> r@ == s@,
        error matches DbgFlowError::Artifact(s) ==> r@ == s@,
        error matches DbgFlowError::SessionNotFound(s) ==> r@ == s@,
        error matches DbgFlowError::SessionClosed(s) ==> r@ == s@,
        made@ == ErrorView::Backend(text@),
{
}

} // verus!

//! Command lines as the system passes them: arguments between white space, with quotes.

use crate::scan;
use crate::scan::is_white_char;
use crate::text;
use crate::text::{chars_of, text_of};
use vstd::prelude::*;

verus! {

/// How many backslashes a text begins with.
pub open spec fn slashes(s: Seq<char>) -> nat
    decreases s.len(),
{
    if s.len() > 0 && s[0] == '\\' {
        slashes(s.skip(1)) + 1
    } else {
        0
    }
}

/// A number of backslashes.
pub open spec fn slashed(n: nat) -> Seq<char> {
    Seq::new(n, |i: int| '\\')
}

/// A text begins with no more backslashes than it has characters, and not with one more.
pub proof fn slashes_count(s: Seq<char>)
    ensures
        slashes(s) <= s.len(),
        forall|i: int| 0 <= i < slashes(s) ==> s[i] == '\\',
        slashes(s) < s.len() ==> s[slashes(s) as int] != '\\',
    decreases s.len(),
{
    if s.len() > 0 && s[0] == '\\' {
        slashes_count(s.skip(1));
        assert forall|i: int| 0 <= i < slashes(s) implies s[i] == '\\' by {
            if i > 0 {
                assert(s[i] == s.skip(1)[i - 1]);
            }
        }
        if slashes(s) < s.len() {
            assert(s[slashes(s) as int] == s.skip(1)[slashes(s.skip(1)) as int]);
        }
    }
}

/// The arguments that a command line holds from some place on: `arg` is what was read of an
/// argument, `open` whether one was begun, and `quoted` whether a quote is open. None if a quote
/// is never closed.
///
/// White space outside of quotes ends an argument. Backslashes stand for themselves, but before a
/// quote two of them stand for one, and an odd one makes the quote stand for itself.
pub open spec fn arguments(s: Seq<char>, arg: Seq<char>, quoted: bool, open: bool) -> Option<
    Seq<Seq<char>>,
>
    decreases s.len(),
{
    if s.len() == 0 {
        if quoted {
            None
        } else if open {
            Some(seq![arg])
        } else {
            Some(Seq::empty())
        }
    } else if scan::is_white(s[0]) && !quoted {
        if open {
            begun_with(arg, arguments(s.skip(1), Seq::empty(), false, false))
        } else {
            arguments(s.skip(1), Seq::empty(), false, false)
        }
    } else if s[0] == '\\' {
        proof {
            slashes_count(s);
        }
        let n = slashes(s);
        let rest = s.skip(n as int);
        if rest.len() > 0 && rest[0] == '"' {
            if n % 2 == 0 {
                arguments(rest.skip(1), arg + slashed(n / 2), !quoted, true)
            } else {
                arguments(rest.skip(1), (arg + slashed(n / 2)).push('"'), quoted, true)
            }
        } else {
            arguments(rest, arg + slashed(n), quoted, true)
        }
    } else if s[0] == '"' {
        arguments(s.skip(1), arg, !quoted, true)
    } else {
        arguments(s.skip(1), arg.push(s[0]), quoted, true)
    }
}

/// A list with one more argument before it.
pub open spec fn begun_with(arg: Seq<char>, r: Option<Seq<Seq<char>>>) -> Option<Seq<Seq<char>>> {
    match r {
        Some(v) => Some(seq![arg] + v),
        None => None,
    }
}

/// A list with others before it.
pub open spec fn after(done: Seq<Seq<char>>, r: Option<Seq<Seq<char>>>) -> Option<Seq<Seq<char>>> {
    match r {
        Some(v) => Some(done + v),
        None => None,
    }
}

/// The arguments of a command line.
pub open spec fn split(s: Seq<char>) -> Option<Seq<Seq<char>>> {
    arguments(s, Seq::empty(), false, false)
}

/// A text that begins with backslashes and then another character.
proof fn slashes_then(n: nat, rest: Seq<char>)
    requires
        rest.len() == 0 || rest[0] != '\\',
    ensures
        slashes(slashed(n) + rest) == n,
        (slashed(n) + rest).skip(n as int) == rest,
    decreases n,
{
    let s = slashed(n) + rest;
    if n > 0 {
        slashes_then((n - 1) as nat, rest);
        assert(s.skip(1) =~= slashed((n - 1) as nat) + rest);
        assert(s[0] == '\\');
    } else {
        assert(s =~= rest);
    }
    assert(s.skip(n as int) =~= rest);
}

fn push_slashes(arg: &mut String, n: usize)
    ensures
        final(arg)@ == old(arg)@ + slashed(n as nat),
{
    let mut i: usize = 0;
    assert(arg@ =~= old(arg)@ + slashed(0));
    while i < n
        invariant
            i <= n,
            arg@ == old(arg)@ + slashed(i as nat),
        decreases n - i,
    {
        arg.push('\\');
        i += 1;
        assert(arg@ =~= old(arg)@ + slashed(i as nat));
    }
}

/// Splits a command line into its arguments.
pub fn split_windows_command_line(value: &str) -> (r: Result<Vec<String>, String>)
    ensures
        match r {
            Ok(args) => split(value@) == Some(text::views(args@)),
            Err(e) => split(value@) is None && e@
                == "service command line has an unterminated quote"@,
        },
{
    let chars = chars_of(value);
    let size: usize = chars.len();
    let mut args: Vec<String> = Vec::new();
    let mut arg = String::new();
    let mut in_quotes = false;
    let mut in_arg = false;
    let mut index: usize = 0;
    proof {
        assert(chars@.skip(0) =~= value@);
        assert(text::views(args@) =~= Seq::<Seq<char>>::empty());
        assert(arg@ =~= Seq::<char>::empty());
        if let Some(v) = split(value@) {
            assert(Seq::<Seq<char>>::empty() + v =~= v);
        }
    }
    while index < size
        invariant
            index <= size,
            size == chars@.len(),
            chars@ == value@,
            !in_arg ==> arg@ == Seq::<char>::empty() && !in_quotes,
            split(value@) == after(
                text::views(args@),
                arguments(chars@.skip(index as int), arg@, in_quotes, in_arg),
            ),
        decreases size - index,
    {
        let ghost rest = chars@.skip(index as int);
        let ch = chars[index];
        assert(rest[0] == ch);
        assert(rest.skip(1) =~= chars@.skip(index as int + 1));
        if is_white_char(ch) && !in_quotes {
            if in_arg {
                let ghost done = text::views(args@);
                let ghost last = arg@;
                args.push(arg);
                arg = String::new();
                in_arg = false;
                proof {
                    assert(text::views(args@) =~= done.push(last));
                    assert(arg@ =~= Seq::<char>::empty());
                    if let Some(v) = arguments(rest.skip(1), Seq::empty(), false, false) {
                        assert(done + (seq![last] + v) =~= done.push(last) + v);
                    }
                }
            }
            index += 1;
            continue ;
        }
        if ch == '\\' {
            let ghost start = index as int;
            let mut count: usize = 0;
            while index < size && chars[index] == '\\'
                invariant
                    start + count == index,
                    index <= size,
                    size == chars@.len(),
                    0 <= start,
                    rest == chars@.skip(start),
                    slashes(rest) == count + slashes(chars@.skip(index as int)),
                decreases size - index,
            {
                assert(chars@.skip(index as int).skip(1) =~= chars@.skip(index as int + 1));
                count += 1;
                index += 1;
            }
            assert(rest.skip(count as int) =~= chars@.skip(index as int));
            if index < size && chars[index] == '"' {
                assert(rest.skip(count as int)[0] == '"');
                assert(chars@.skip(index as int).skip(1) =~= chars@.skip(index as int + 1));
                push_slashes(&mut arg, count / 2);
                if count % 2 == 0 {
                    in_quotes = !in_quotes;
                } else {
                    arg.push('"');
                }
                in_arg = true;
                index += 1;
            } else {
                push_slashes(&mut arg, count);
                in_arg = true;
            }
            continue ;
        }
        if ch == '"' {
            in_quotes = !in_quotes;
            in_arg = true;
            index += 1;
            continue ;
        }
        arg.push(ch);
        in_arg = true;
        index += 1;
    }
    assert(chars@.skip(index as int).len() == 0);
    if in_quotes {
        return Err("service command line has an unterminated quote".to_owned());
    }
    let ghost done = text::views(args@);
    if in_arg {
        let ghost last = arg@;
        args.push(arg);
        assert(text::views(args@) =~= done + seq![last]);
    } else {
        assert(done + Seq::<Seq<char>>::empty() =~= done);
    }
    Ok(args)
}

/// Whether a character makes quotes necessary.
pub open spec fn needs_quotes(c: char) -> bool {
    c == ' ' || c == '\t' || c == '\n' || c == '\r' || c == '"'
}

/// Whether an argument is written with quotes.
pub open spec fn is_quoted(arg: Seq<char>) -> bool {
    arg.len() == 0 || exists|i: int| 0 <= i < arg.len() && needs_quotes(#[trigger] arg[i])
}

/// An argument as it stands between quotes: backslashes are doubled before a quote and at the
/// end, and a quote gets one more.
pub open spec fn between_quotes(arg: Seq<char>) -> Seq<char>
    decreases arg.len(),
{
    proof {
        slashes_count(arg);
    }
    let n = slashes(arg);
    let rest = arg.skip(n as int);
    if rest.len() == 0 {
        slashed(2 * n)
    } else if rest[0] == '"' {
        slashed(2 * n + 1).push('"') + between_quotes(rest.skip(1))
    } else {
        slashed(n).push(rest[0]) + between_quotes(rest.skip(1))
    }
}

/// An argument as it is written.
pub open spec fn written(arg: Seq<char>) -> Seq<char> {
    if is_quoted(arg) {
        seq!['"'] + between_quotes(arg) + seq!['"']
    } else {
        arg
    }
}

/// A command line.
pub open spec fn joined_line(args: Seq<Seq<char>>) -> Seq<char> {
    text::joined(args.map_values(|a: Seq<char>| written(a)), seq![' '])
}

/// An argument between quotes is read back, up to the closing quote.
proof fn quoted_is_read(arg: Seq<char>, tail: Seq<char>, before: Seq<char>)
    ensures
        arguments(between_quotes(arg) + seq!['"'] + tail, before, true, true) == arguments(
            tail,
            before + arg,
            false,
            true,
        ),
    decreases arg.len(),
{
    slashes_count(arg);
    let n = slashes(arg);
    let rest = arg.skip(n as int);
    let line = between_quotes(arg) + seq!['"'] + tail;
    assert(arg =~= slashed(n) + rest);
    if rest.len() == 0 {
        let close = seq!['"'] + tail;
        assert(line =~= slashed(2 * n) + close);
        slashes_then(2 * n, close);
        assert(close.skip(1) =~= tail);
        assert((2 * n) / 2 == n);
        assert(before + slashed(n) =~= before + arg);
        if n == 0 {
            assert(line =~= close);
            assert(before =~= before + arg);
        } else {
            assert(line[0] == '\\');
        }
    } else if rest[0] == '"' {
        let more = between_quotes(rest.skip(1)) + seq!['"'] + tail;
        let close = seq!['"'] + more;
        assert(line =~= slashed(2 * n + 1) + close);
        slashes_then(2 * n + 1, close);
        assert(close.skip(1) =~= more);
        assert((2 * n + 1) / 2 == n);
        assert((2 * n + 1) % 2 == 1);
        assert(line[0] == '\\');
        let read = (before + slashed(n)).push('"');
        quoted_is_read(rest.skip(1), tail, read);
        assert(read + rest.skip(1) =~= before + arg);
    } else {
        let more = between_quotes(rest.skip(1)) + seq!['"'] + tail;
        let plain = seq![rest[0]] + more;
        assert(line =~= slashed(n) + plain);
        slashes_then(n, plain);
        assert(plain.skip(1) =~= more);
        let read = (before + slashed(n)).push(rest[0]);
        quoted_is_read(rest.skip(1), tail, read);
        assert(read + rest.skip(1) =~= before + arg);
        assert(arguments(plain, before + slashed(n), true, true) == arguments(
            more,
            read,
            true,
            true,
        ));
        if n == 0 {
            assert(line =~= plain);
            assert(before + slashed(0) =~= before);
        } else {
            assert(line[0] == '\\');
        }
    }
}

/// An argument that holds no white space and no quote is read back, up to the white space after
/// it.
proof fn plain_is_read(arg: Seq<char>, tail: Seq<char>, before: Seq<char>, open: bool)
    requires
        forall|i: int| 0 <= i < arg.len() ==> !scan::is_white(#[trigger] arg[i]) && arg[i] != '"',
        tail.len() > 0 ==> scan::is_white(tail[0]),
        arg.len() > 0,
    ensures
        arguments(arg + tail, before, false, open) == arguments(tail, before + arg, false, true),
    decreases arg.len(),
{
    slashes_count(arg);
    let n = slashes(arg);
    let rest = arg.skip(n as int);
    let line = arg + tail;
    assert(arg =~= slashed(n) + rest);
    assert(line[0] == arg[0]);
    if n > 0 {
        assert(line =~= slashed(n) + (rest + tail));
        slashes_then(n, rest + tail);
        if rest.len() > 0 {
            assert((rest + tail)[0] == arg[n as int]);
            assert forall|i: int| 0 <= i < rest.len() implies !scan::is_white(#[trigger] rest[i])
                && rest[i] != '"' by {
                assert(rest[i] == arg[i + n]);
            }
            plain_is_read(rest, tail, before + slashed(n), true);
            assert(before + slashed(n) + rest =~= before + arg);
        } else {
            assert(rest + tail =~= tail);
            assert(before + slashed(n) =~= before + arg);
        }
    } else {
        let next = arg.skip(1);
        assert(line.skip(1) =~= next + tail);
        assert forall|i: int| 0 <= i < next.len() implies !scan::is_white(#[trigger] next[i])
            && next[i] != '"' by {
            assert(next[i] == arg[i + 1]);
        }
        if next.len() > 0 {
            plain_is_read(next, tail, before.push(arg[0]), true);
            assert(before.push(arg[0]) + next =~= before + arg);
        } else {
            assert(next + tail =~= tail);
            assert(before.push(arg[0]) =~= before + arg);
        }
    }
}

/// Whether an argument is read back from what is written of it: if it is written without
/// quotes, it holds no white space. (White space other than blanks, tabs and line ends does not
/// make quotes necessary, but ends an argument.)
pub open spec fn is_readable(arg: Seq<char>) -> bool {
    is_quoted(arg) || forall|i: int| 0 <= i < arg.len() ==> !scan::is_white(#[trigger] arg[i])
}

/// An argument is read back from what is written of it.
proof fn written_is_read(arg: Seq<char>, tail: Seq<char>)
    requires
        is_readable(arg),
        tail.len() > 0 ==> scan::is_white(tail[0]),
    ensures
        arguments(written(arg) + tail, Seq::empty(), false, false) == arguments(
            tail,
            arg,
            false,
            true,
        ),
{
    let empty = Seq::<char>::empty();
    let line = written(arg) + tail;
    assert(empty + arg =~= arg);
    if is_quoted(arg) {
        let more = between_quotes(arg) + seq!['"'] + tail;
        assert(line =~= seq!['"'] + more);
        assert(line.skip(1) =~= more);
        assert(line[0] == '"');
        quoted_is_read(arg, tail, empty);
    } else {
        assert forall|i: int| 0 <= i < arg.len() implies !scan::is_white(#[trigger] arg[i]) && arg[i]
            != '"' by {
            assert(!needs_quotes(arg[i]));
        }
        plain_is_read(arg, tail, empty, false);
    }
}

/// The arguments of a command line are read back, up to the white space after them.
proof fn joined_is_read(args: Seq<Seq<char>>, tail: Seq<char>)
    requires
        args.len() > 0,
        forall|i: int| 0 <= i < args.len() ==> is_readable(#[trigger] args[i]),
        tail.len() > 0 ==> scan::is_white(tail[0]),
    ensures
        split(joined_line(args) + tail) == after(
            args.drop_last(),
            arguments(tail, args.last(), false, true),
        ),
    decreases args.len(),
{
    let each = args.map_values(|a: Seq<char>| written(a));
    let last = args.last();
    if args.len() == 1 {
        written_is_read(last, tail);
        assert(joined_line(args) == written(last));
        if let Some(v) = arguments(tail, last, false, true) {
            assert(args.drop_last() + v =~= v);
        }
    } else {
        let front = args.drop_last();
        let one = written(last) + tail;
        let more = seq![' '] + one;
        assert(front.map_values(|a: Seq<char>| written(a)) =~= each.drop_last());
        assert(joined_line(args) + tail =~= joined_line(front) + more);
        assert forall|i: int| 0 <= i < front.len() implies is_readable(#[trigger] front[i]) by {
            assert(front[i] == args[i]);
        }
        joined_is_read(front, more);
        assert(more.skip(1) =~= one);
        written_is_read(last, tail);
        if let Some(v) = arguments(tail, last, false, true) {
            assert(front.drop_last() + (seq![front.last()] + v) =~= front + v);
        }
    }
}

/// The arguments that a command line is made of are read back from it.
pub proof fn joined_lines_are_split(args: Seq<Seq<char>>)
    requires
        forall|i: int| 0 <= i < args.len() ==> is_readable(#[trigger] args[i]),
    ensures
        split(joined_line(args)) == Some(args),
{
    if args.len() == 0 {
        assert(args =~= Seq::<Seq<char>>::empty());
    } else {
        joined_is_read(args, Seq::empty());
        assert(joined_line(args) + Seq::<char>::empty() =~= joined_line(args));
        assert(args.drop_last() + seq![args.last()] =~= args);
    }
}

/// Writes an argument.
pub fn quote_windows_arg(arg: &str) -> (r: String)
    ensures
        r@ == written(arg@),
{
    let chars = chars_of(arg);
    let size: usize = chars.len();
    let mut plain = size > 0;
    let mut i: usize = 0;
    while i < size
        invariant
            i <= size,
            size == chars@.len(),
            chars@ == arg@,
            plain == (size > 0 && forall|j: int| 0 <= j < i ==> !needs_quotes(#[trigger] arg@[j])),
        decreases size - i,
    {
        let c = chars[i];
        if c == ' ' || c == '\t' || c == '\n' || c == '\r' || c == '"' {
            assert(needs_quotes(arg@[i as int]));
            plain = false;
        }
        i += 1;
    }
    if plain {
        return arg.to_owned();
    }
    assert(is_quoted(arg@));
    let mut out: Vec<char> = Vec::new();
    out.push('"');
    let mut at: usize = 0;
    proof {
        assert(chars@.skip(0) =~= arg@);
        assert(written(arg@) =~= out@ + between_quotes(chars@.skip(0)) + seq!['"']);
    }
    while at < size
        invariant
            at <= size,
            size == chars@.len(),
            chars@ == arg@,
            written(arg@) == out@ + between_quotes(chars@.skip(at as int)) + seq!['"'],
        decreases size - at,
    {
        let ghost rest = chars@.skip(at as int);
        let ghost before = out@;
        let ghost start = at as int;
        let mut count: usize = 0;
        while at < size && chars[at] == '\\'
            invariant
                start + count == at,
                at <= size,
                size == chars@.len(),
                0 <= start,
                rest == chars@.skip(start),
                out@ == before + slashed(count as nat),
                slashes(rest) == count + slashes(chars@.skip(at as int)),
            decreases size - at,
        {
            assert(chars@.skip(at as int).skip(1) =~= chars@.skip(at as int + 1));
            out.push('\\');
            count += 1;
            at += 1;
            assert(out@ =~= before + slashed(count as nat));
        }
        assert(rest.skip(count as int) =~= chars@.skip(at as int));
        assert(slashes(rest) == count);
        if at >= size || chars[at] == '"' {
            let mut doubled: usize = 0;
            while doubled < count
                invariant
                    doubled <= count,
                    out@ == before + slashed((count + doubled) as nat),
                decreases count - doubled,
            {
                out.push('\\');
                doubled += 1;
                assert(out@ =~= before + slashed((count + doubled) as nat));
            }
            assert(out@ =~= before + slashed((2 * count) as nat));
        }
        let ghost more = chars@.skip(at as int);
        if at < size {
            assert(more[0] == chars@[at as int]);
            assert(more.skip(1) =~= chars@.skip(at as int + 1));
            let c = chars[at];
            if c == '"' {
                out.push('\\');
            }
            out.push(c);
            at += 1;
            proof {
                let end = between_quotes(chars@.skip(at as int)) + seq!['"'];
                if c == '"' {
                    assert(out@ =~= before + slashed((2 * count + 1) as nat).push('"'));
                } else {
                    assert(out@ =~= before + slashed(count as nat).push(c));
                }
                assert(written(arg@) =~= out@ + between_quotes(chars@.skip(at as int)) + seq!['"']);
            }
        } else {
            assert(between_quotes(chars@.skip(at as int)) =~= Seq::<char>::empty());
            assert(written(arg@) =~= out@ + between_quotes(chars@.skip(at as int)) + seq!['"']);
        }
    }
    assert(chars@.skip(at as int).len() == 0);
    assert(between_quotes(chars@.skip(at as int)) =~= Seq::<char>::empty());
    out.push('"');
    assert(out@ =~= written(arg@));
    text_of(&out)
}

/// Writes a command line.
pub fn join_windows_command_line(args: &[String]) -> (r: String)
    ensures
        r@ == joined_line(text::views(args@)),
{
    let mut each: Vec<String> = Vec::new();
    let ghost goal = text::views(args@).map_values(|a: Seq<char>| written(a));
    let mut i: usize = 0;
    while i < args.len()
        invariant
            i <= args@.len(),
            goal == text::views(args@).map_values(|a: Seq<char>| written(a)),
            text::views(each@) =~= goal.take(i as int),
        decreases args@.len() - i,
    {
        let ghost before = each@;
        each.push(quote_windows_arg(args[i].as_str()));
        i += 1;
        assert(text::views(each@) =~= text::views(before).push(goal[i as int - 1]));
    }
    assert(text::views(each@) =~= goal);
    proof {
        reveal_strlit(" ");
        assert(" "@ =~= seq![' ']);
    }
    text::join_texts(&each, " ")
}

} // verus!

//! Lists of directories as they stand in variables of the environment: separated by semicolons,
//! with quotation marks around what holds one.

use crate::text;
use crate::text::{chars_of, join_texts, text_of};
use vstd::prelude::*;

verus! {

/// What has been read of a list of directories.
#[verifier::ext_equal]
pub struct SplitView {
    pub done: Seq<Seq<char>>,
    pub entry: Seq<char>,
    pub quoted: bool,
}

impl SplitView {
    /// Nothing has been read.
    pub open spec fn start() -> SplitView {
        SplitView { done: Seq::empty(), entry: Seq::empty(), quoted: false }
    }

    /// One more character is read: a quotation mark begins or ends what is quoted, and a
    /// semicolon that is not quoted ends a directory.
    pub open spec fn with(self, c: char) -> SplitView {
        if c == '"' {
            SplitView { quoted: !self.quoted, ..self }
        } else if c == ';' && !self.quoted {
            SplitView { done: self.done.push(self.entry), entry: Seq::empty(), quoted: false }
        } else {
            SplitView { entry: self.entry.push(c), ..self }
        }
    }

    /// A text is read.
    pub open spec fn with_all(self, s: Seq<char>) -> SplitView
        decreases s.len(),
    {
        if s.len() == 0 {
            self
        } else {
            self.with_all(s.drop_last()).with(s.last())
        }
    }

    /// The directories, the last one included.
    pub open spec fn entries(self) -> Seq<Seq<char>> {
        self.done.push(self.entry)
    }
}

/// The directories of a list.
pub open spec fn entries(s: Seq<char>) -> Seq<Seq<char>> {
    SplitView::start().with_all(s).entries()
}

/// The directories of a list.
pub fn split_search_path(s: &str) -> (r: Vec<String>)
    ensures
        text::views(r@) == entries(s@),
{
    let chars = chars_of(s);
    let mut out: Vec<String> = Vec::new();
    let mut entry: Vec<char> = Vec::new();
    let mut quoted = false;
    let mut i: usize = 0;
    let ghost start = SplitView::start();
    assert(s@.take(0) =~= Seq::<char>::empty());
    assert((SplitView { done: text::views(out@), entry: entry@, quoted }) =~= start);
    while i < chars.len()
        invariant
            i <= chars@.len(),
            chars@ == s@,
            start == SplitView::start(),
            (SplitView { done: text::views(out@), entry: entry@, quoted }) == start.with_all(
                s@.take(i as int),
            ),
        decreases chars@.len() - i,
    {
        let c = chars[i];
        let ghost before = SplitView { done: text::views(out@), entry: entry@, quoted };
        assert(s@.take(i + 1).drop_last() =~= s@.take(i as int));
        assert(s@.take(i + 1).last() == c);
        if c == '"' {
            quoted = !quoted;
        } else if c == ';' && !quoted {
            let done = text_of(entry.as_slice());
            out.push(done);
            assert(text::views(out@) =~= before.done.push(before.entry));
            entry = Vec::new();
            assert(entry@ =~= Seq::<char>::empty());
        } else {
            entry.push(c);
        }
        assert((SplitView { done: text::views(out@), entry: entry@, quoted }) =~= before.with(c));
        i += 1;
    }
    assert(s@.take(i as int) =~= s@);
    let ghost before = text::views(out@);
    let last = text_of(entry.as_slice());
    out.push(last);
    assert(text::views(out@) =~= before.push(entry@));
    out
}

/// A directory as it stands in a list.
pub open spec fn listed(entry: Seq<char>) -> Seq<char> {
    if entry.contains(';') {
        seq!['"'] + entry + seq!['"']
    } else {
        entry
    }
}

/// The list of directories, unless one of them holds a quotation mark.
pub open spec fn joined_entries(entries: Seq<Seq<char>>) -> Option<Seq<char>> {
    if exists|i: int| 0 <= i < entries.len() && (#[trigger] entries[i]).contains('"') {
        None
    } else {
        Some(text::joined(entries.map_values(|e: Seq<char>| listed(e)), ";"@))
    }
}

fn holds(chars: &[char], wanted: char) -> (r: bool)
    ensures
        r == chars@.contains(wanted),
{
    let mut i: usize = 0;
    while i < chars.len()
        invariant
            i <= chars@.len(),
            forall|j: int| 0 <= j < i ==> chars@[j] != wanted,
        decreases chars@.len() - i,
    {
        if chars[i] == wanted {
            return true;
        }
        i += 1;
    }
    false
}

fn list_entry(entry: &[char]) -> (r: String)
    ensures
        r@ == listed(entry@),
{
    if !holds(entry, ';') {
        return text_of(entry);
    }
    let mut out: Vec<char> = vec!['"'];
    let mut i: usize = 0;
    while i < entry.len()
        invariant
            i <= entry@.len(),
            out@ == seq!['"'] + entry@.take(i as int),
        decreases entry@.len() - i,
    {
        out.push(entry[i]);
        i += 1;
        assert(out@ =~= seq!['"'] + entry@.take(i as int));
    }
    assert(entry@.take(i as int) =~= entry@);
    out.push('"');
    assert(out@ =~= listed(entry@));
    text_of(out.as_slice())
}

/// Makes a list of directories, unless one of them holds a quotation mark.
pub fn join_search_path(entries: &[String]) -> (r: Option<String>)
    ensures
        text::view_opt(r) == joined_entries(text::views(entries@)),
{
    let ghost all = text::views(entries@);
    let mut out: Vec<String> = Vec::new();
    let mut i: usize = 0;
    while i < entries.len()
        invariant
            i <= entries@.len(),
            all == text::views(entries@),
            out@.len() == i,
            forall|j: int| 0 <= j < i ==> !(#[trigger] all[j]).contains('"'),
            forall|j: int| 0 <= j < i ==> (#[trigger] out@[j])@ == listed(all[j]),
        decreases entries@.len() - i,
    {
        let chars = chars_of(entries[i].as_str());
        assert(all[i as int] == chars@);
        if holds(chars.as_slice(), '"') {
            return None;
        }
        out.push(list_entry(chars.as_slice()));
        i += 1;
    }
    assert(text::views(out@) =~= all.map_values(|e: Seq<char>| listed(e)));
    Some(join_texts(out.as_slice(), ";"))
}

proof fn read_in_parts(v: SplitView, a: Seq<char>, b: Seq<char>)
    ensures
        v.with_all(a + b) == v.with_all(a).with_all(b),
    decreases b.len(),
{
    if b.len() == 0 {
        assert(a + b =~= a);
    } else {
        assert((a + b).drop_last() =~= a + b.drop_last());
        read_in_parts(v, a, b.drop_last());
    }
}

/// Characters that neither quote nor separate are taken as they are.
proof fn plain_text_is_read(v: SplitView, s: Seq<char>)
    requires
        !s.contains('"'),
        v.quoted || !s.contains(';'),
    ensures
        v.with_all(s) == (SplitView { entry: v.entry + s, ..v }),
    decreases s.len(),
{
    if s.len() == 0 {
        assert(v.entry + s =~= v.entry);
    } else {
        let front = s.drop_last();
        let c = s[s.len() - 1];
        assert(s.contains(c));
        assert forall|d: char| front.contains(d) implies s.contains(d) by {
            let i = choose|i: int| 0 <= i < front.len() && front[i] == d;
            assert(s[i] == d);
        }
        plain_text_is_read(v, front);
        assert((v.entry + front).push(c) =~= v.entry + s);
    }
}

/// A directory is read as it was written.
proof fn listed_entry_is_read(v: SplitView, entry: Seq<char>)
    requires
        !v.quoted,
        v.entry.len() == 0,
        !entry.contains('"'),
    ensures
        v.with_all(listed(entry)) == (SplitView { entry, ..v }),
{
    assert(v.entry + entry =~= entry);
    if entry.contains(';') {
        let mark = seq!['"'];
        read_in_parts(v, mark + entry, mark);
        read_in_parts(v, mark, entry);
        assert(mark.drop_last() =~= Seq::<char>::empty());
        let open = SplitView { quoted: true, ..v };
        reveal_with_fuel(SplitView::with_all, 2);
        assert(v.with_all(mark) == open);
        plain_text_is_read(open, entry);
        let full = SplitView { entry, ..open };
        assert(full.with_all(mark) == full.with('"'));
    } else {
        plain_text_is_read(v, entry);
    }
}

/// Directories that are made a list are found in it again, also those that hold a semicolon. No
/// directories at all make the empty list, which is read as one empty directory.
pub proof fn joined_entries_are_split(all: Seq<Seq<char>>)
    requires
        all.len() > 0,
    ensures
        joined_entries(all) matches Some(list) ==> entries(list) == all,
    decreases all.len(),
{
    if joined_entries(all) is Some {
        let start = SplitView::start();
        let texts = all.map_values(|e: Seq<char>| listed(e));
        let list = text::joined(texts, ";"@);
        let last = all[all.len() - 1];
        assert(!last.contains('"'));
        if all.len() == 1 {
            listed_entry_is_read(start, last);
            assert(start.done.push(last) =~= all);
        } else {
            reveal_strlit(";");
            let front = all.drop_last();
            assert forall|i: int| 0 <= i < front.len() implies !(#[trigger] front[i]).contains(
                '"',
            ) by {
                assert(!all[i].contains('"'));
            }
            joined_entries_are_split(front);
            let before = text::joined(front.map_values(|e: Seq<char>| listed(e)), ";"@);
            assert(texts.drop_last() =~= front.map_values(|e: Seq<char>| listed(e)));
            assert(list == before + ";"@ + listed(last));
            read_in_parts(start, before + ";"@, listed(last));
            read_in_parts(start, before, ";"@);
            let read = start.with_all(before);
            joined_list_is_closed(front);
            assert(";"@.drop_last() =~= Seq::<char>::empty());
            reveal_with_fuel(SplitView::with_all, 2);
            let next = SplitView { done: front, entry: Seq::empty(), quoted: false };
            assert(read.with_all(";"@) =~= next);
            listed_entry_is_read(next, last);
            assert(front.push(last) =~= all);
        }
    }
}

/// At the end of a list nothing is quoted any more.
proof fn joined_list_is_closed(all: Seq<Seq<char>>)
    requires
        all.len() > 0,
        forall|i: int| 0 <= i < all.len() ==> !(#[trigger] all[i]).contains('"'),
    ensures
        !SplitView::start().with_all(
            text::joined(all.map_values(|e: Seq<char>| listed(e)), ";"@),
        ).quoted,
    decreases all.len(),
{
    let start = SplitView::start();
    let texts = all.map_values(|e: Seq<char>| listed(e));
    let last = all[all.len() - 1];
    if all.len() == 1 {
        listed_entry_is_read(start, last);
    } else {
        reveal_strlit(";");
        let front = all.drop_last();
        assert forall|i: int| 0 <= i < front.len() implies !(#[trigger] front[i]).contains('"') by {
            assert(!all[i].contains('"'));
        }
        joined_list_is_closed(front);
        let before = text::joined(front.map_values(|e: Seq<char>| listed(e)), ";"@);
        assert(texts.drop_last() =~= front.map_values(|e: Seq<char>| listed(e)));
        read_in_parts(start, before + ";"@, listed(last));
        read_in_parts(start, before, ";"@);
        let read = start.with_all(before);
        assert(";"@.drop_last() =~= Seq::<char>::empty());
        reveal_with_fuel(SplitView::with_all, 2);
        let next = SplitView { done: read.done.push(read.entry), entry: Seq::empty(), quoted: false };
        assert(read.with_all(";"@) =~= next);
        listed_entry_is_read(next, last);
    }
}

} // verus!

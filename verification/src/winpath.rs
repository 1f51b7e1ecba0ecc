//! Paths of the Windows file system as texts.

use crate::scan;
use crate::text;
use crate::text::{cat2, cat3, chars_of, join_texts, same};
use vstd::prelude::*;

verus! {

/// Whether a character separates the names of a path. In a verbatim path only the backslash
/// does.
pub open spec fn is_separator(c: char, verbatim: bool) -> bool {
    c == '\\' || (c == '/' && !verbatim)
}

/// The number of characters in front of the first separator.
pub open spec fn name_len(s: Seq<char>, verbatim: bool) -> nat
    decreases s.len(),
{
    if s.len() == 0 || is_separator(s[0], verbatim) {
        0
    } else {
        1 + name_len(s.drop_first(), verbatim)
    }
}

/// What the front of a path names.
#[derive(Debug, Clone, Copy, PartialEq, Eq, Structural)]
pub enum PrefixKind {
    /// Nothing.
    Relative,
    /// A drive, as in `C:`.
    Drive,
    /// A share or a device, as in `\\server\share` or `\\.\pipe`.
    Share,
    /// Something to be taken as it is written, as in `\\?\C:`.
    Verbatim,
}

/// Whether a character is a letter of the ASCII alphabet.
pub open spec fn is_letter(c: char) -> bool {
    'a' <= c <= 'z' || 'A' <= c <= 'Z'
}

/// The length of a pair of names with a separator between them; the second may be missing.
pub open spec fn pair_len(s: Seq<char>, verbatim: bool) -> nat {
    let first = name_len(s, verbatim);
    let rest = s.skip(first as int + 1);
    if first + 1 < s.len() && name_len(rest, verbatim) > 0 {
        first + 1 + name_len(rest, verbatim)
    } else {
        first
    }
}

/// Whether both names of a pair are there.
pub open spec fn is_pair(s: Seq<char>, verbatim: bool) -> bool {
    let first = name_len(s, verbatim);
    first > 0 && first + 1 < s.len() && name_len(s.skip(first as int + 1), verbatim) > 0
}

/// What the front of a path names, and how long it is.
pub open spec fn prefix(s: Seq<char>) -> (PrefixKind, nat) {
    if scan::starts(s, "\\\\?\\UNC\\"@) {
        (PrefixKind::Verbatim, 8 + pair_len(s.skip(8), true))
    } else if scan::starts(s, "\\\\?\\"@) {
        (PrefixKind::Verbatim, 4 + name_len(s.skip(4), true))
    } else if s.len() >= 4 && is_separator(s[0], false) && is_separator(s[1], false) && s[2] == '.'
        && is_separator(s[3], false) {
        (PrefixKind::Share, 4 + name_len(s.skip(4), false))
    } else if s.len() >= 2 && is_separator(s[0], false) && is_separator(s[1], false) {
        if is_pair(s.skip(2), false) {
            (PrefixKind::Share, 2 + pair_len(s.skip(2), false))
        } else {
            (PrefixKind::Relative, 0)
        }
    } else if s.len() >= 2 && is_letter(s[0]) && s[1] == ':' {
        (PrefixKind::Drive, 2)
    } else {
        (PrefixKind::Relative, 0)
    }
}

/// The names of a path, without those that are empty or a dot. A dot counts where a path is to be
/// taken as it is written.
pub open spec fn names(s: Seq<char>, verbatim: bool) -> Seq<Seq<char>>
    decreases s.len(),
{
    if s.len() == 0 {
        Seq::empty()
    } else {
        let n = name_len(s, verbatim);
        let head = s.take(n as int);
        let rest = if n < s.len() {
            names(s.skip(n as int + 1), verbatim)
        } else {
            Seq::empty()
        };
        if head.len() == 0 || (head == "."@ && !verbatim) {
            rest
        } else {
            seq![head] + rest
        }
    }
}

/// A path taken apart.
#[derive(Debug)]
pub struct PathParts {
    pub kind: PrefixKind,
    pub prefix: String,
    /// Whether a separator follows the prefix.
    pub rooted: bool,
    pub names: Vec<String>,
}

/// The mathematical form of a path taken apart.
#[verifier::ext_equal]
pub struct PartsView {
    pub kind: PrefixKind,
    pub prefix: Seq<char>,
    pub rooted: bool,
    pub names: Seq<Seq<char>>,
}

impl View for PathParts {
    type V = PartsView;

    open spec fn view(&self) -> PartsView {
        PartsView {
            kind: self.kind,
            prefix: self.prefix@,
            rooted: self.rooted,
            names: text::views(self.names@),
        }
    }
}

/// Whether the first name of a path is a dot.
pub open spec fn dot_in_front(s: Seq<char>) -> bool {
    s.take(name_len(s, false) as int) == "."@
}

/// A path taken apart. A dot in front of it counts as a name where nothing but a drive comes before
/// it.
pub open spec fn parts(s: Seq<char>) -> PartsView {
    let (kind, n) = prefix(s);
    let verbatim = kind == PrefixKind::Verbatim;
    let rest = s.skip(n as int);
    let dot = (kind == PrefixKind::Relative || kind == PrefixKind::Drive) && dot_in_front(rest);
    PartsView {
        kind,
        prefix: s.take(n as int),
        rooted: rest.len() > 0 && is_separator(rest[0], verbatim),
        names: (if dot {
            seq!["."@]
        } else {
            Seq::empty()
        }) + names(rest, verbatim),
    }
}

impl PartsView {
    /// Whether the path names a place whatever the current directory is.
    pub open spec fn absolute(self) -> bool {
        match self.kind {
            PrefixKind::Relative => false,
            PrefixKind::Drive => self.rooted,
            PrefixKind::Share => true,
            PrefixKind::Verbatim => true,
        }
    }

    /// Whether a root stands behind the prefix, written or not.
    pub open spec fn has_root(self) -> bool {
        self.rooted || self.kind == PrefixKind::Share
    }

    /// The number of components: prefix, root and names.
    pub open spec fn count(self) -> nat {
        (if self.kind == PrefixKind::Relative {
            0nat
        } else {
            1nat
        }) + (if self.has_root() {
            1nat
        } else {
            0nat
        }) + self.names.len()
    }

    /// The last name, unless it leads to the parent or nowhere.
    pub open spec fn file_name(self) -> Option<Seq<char>> {
        if self.names.len() == 0 || self.names.last() == ".."@ || self.names.last() == "."@ {
            None
        } else {
            Some(self.names.last())
        }
    }

    /// The text of the path.
    pub open spec fn written(self) -> Seq<char> {
        self.prefix + (if self.has_root() {
            "\\"@
        } else {
            Seq::empty()
        }) + text::joined(self.names, "\\"@)
    }
}

/// Whether a name begins with a letter and a colon.
pub open spec fn begins_with_drive(name: Seq<char>) -> bool {
    name.len() >= 2 && is_letter(name[0]) && name[1] == ':'
}

/// The path that a name with a drive in front of it is.
pub open spec fn on_drive(name: Seq<char>) -> PartsView {
    PartsView {
        kind: PrefixKind::Drive,
        prefix: name.take(2),
        rooted: false,
        names: if name.len() == 2 {
            Seq::empty()
        } else {
            seq![name.skip(2)]
        },
    }
}

/// A path with more names at its end: a dot adds nothing, each `..` takes the name in front of it
/// away, if there is one, and a name with a drive in front of it takes the place of all.
pub open spec fn resolved(start: PartsView, names: Seq<Seq<char>>) -> Option<PartsView>
    decreases names.len(),
{
    if names.len() == 0 {
        Some(start)
    } else {
        let name = names.last();
        match resolved(start, names.drop_last()) {
            None => None,
            Some(before) => if name == "."@ {
                Some(before)
            } else if name == ".."@ {
                if before.names.len() > 0 {
                    Some(PartsView { names: before.names.drop_last(), ..before })
                } else {
                    None
                }
            } else if begins_with_drive(name) {
                Some(on_drive(name))
            } else {
                Some(PartsView { names: before.names.push(name), ..before })
            },
        }
    }
}

impl PartsView {
    /// The front of a path, without names.
    pub open spec fn front(self) -> PartsView {
        PartsView { names: Seq::empty(), ..self }
    }

    /// The path without `.` and `..`, if it does not lead out of its root.
    pub open spec fn resolve(self) -> Option<PartsView> {
        resolved(self.front(), self.names)
    }
}

/// The path without `.` and `..`, if it does not lead out of its root.
pub open spec fn normalized(s: Seq<char>) -> Option<Seq<char>> {
    match parts(s).resolve() {
        Some(left) => Some(left.written()),
        None => None,
    }
}

fn separates(c: char, verbatim: bool) -> (r: bool)
    ensures
        r == is_separator(c, verbatim),
{
    c == '\\' || (c == '/' && !verbatim)
}

fn name_end(chars: &[char], from: usize, verbatim: bool) -> (r: usize)
    requires
        from <= chars@.len(),
    ensures
        from <= r <= chars@.len(),
        r - from == name_len(chars@.skip(from as int), verbatim),
{
    let mut to: usize = from;
    while to < chars.len() && !separates(chars[to], verbatim)
        invariant
            from <= to <= chars@.len(),
            name_len(chars@.skip(from as int), verbatim) == (to - from) + name_len(
                chars@.skip(to as int),
                verbatim,
            ),
        decreases chars@.len() - to,
    {
        assert(chars@.skip(to as int).drop_first() =~= chars@.skip(to as int + 1));
        to += 1;
    }
    assert(name_len(chars@.skip(to as int), verbatim) == 0);
    to
}

fn pair_end(chars: &[char], from: usize, verbatim: bool) -> (r: (usize, bool))
    requires
        from <= chars@.len(),
    ensures
        from <= r.0 <= chars@.len(),
        r.0 - from == pair_len(chars@.skip(from as int), verbatim),
        r.1 == is_pair(chars@.skip(from as int), verbatim),
{
    let first = name_end(chars, from, verbatim);
    let size: usize = chars.len();
    if first < size && first + 1 < size {
        let second = name_end(chars, first + 1, verbatim);
        assert(chars@.skip(from as int).skip(first - from + 1) =~= chars@.skip(first + 1));
        if second > first + 1 {
            return (second, first > from);
        }
    }
    (first, false)
}

fn prefix_of(chars: &[char]) -> (r: (PrefixKind, usize))
    ensures
        r.1 <= chars@.len(),
        prefix(chars@) == (r.0, r.1 as nat),
{
    proof {
        reveal_strlit("\\\\?\\UNC\\");
        reveal_strlit("\\\\?\\");
    }
    assert(chars@.skip(0) =~= chars@);
    let unc = chars_of("\\\\?\\UNC\\");
    let plain = chars_of("\\\\?\\");
    if scan::matches_at(chars, 0, unc.as_slice()) {
        let (end, _) = pair_end(chars, 8, true);
        (PrefixKind::Verbatim, end)
    } else if scan::matches_at(chars, 0, plain.as_slice()) {
        (PrefixKind::Verbatim, name_end(chars, 4, true))
    } else if chars.len() >= 4 && separates(chars[0], false) && separates(chars[1], false)
        && chars[2] == '.' && separates(chars[3], false) {
        (PrefixKind::Share, name_end(chars, 4, false))
    } else if chars.len() >= 2 && separates(chars[0], false) && separates(chars[1], false) {
        let (end, both) = pair_end(chars, 2, false);
        if both {
            (PrefixKind::Share, end)
        } else {
            (PrefixKind::Relative, 0)
        }
    } else if chars.len() >= 2 && (('a' <= chars[0] && chars[0] <= 'z') || ('A' <= chars[0]
        && chars[0] <= 'Z')) && chars[1] == ':' {
        (PrefixKind::Drive, 2)
    } else {
        (PrefixKind::Relative, 0)
    }
}

fn names_of(chars: &[char], from: usize, verbatim: bool) -> (r: Vec<String>)
    requires
        from <= chars@.len(),
    ensures
        text::views(r@) == names(chars@.skip(from as int), verbatim),
{
    let mut out: Vec<String> = Vec::new();
    let mut at: usize = from;
    let ghost all = names(chars@.skip(from as int), verbatim);
    assert(text::views(out@) + all =~= all);
    while at < chars.len()
        invariant
            from <= at <= chars@.len(),
            text::views(out@) + names(chars@.skip(at as int), verbatim) == all,
        decreases chars@.len() - at,
    {
        let ghost rest = chars@.skip(at as int);
        let ghost before = text::views(out@);
        let size: usize = chars.len();
        let end = name_end(chars, at, verbatim);
        let name = scan::part(chars, at, end);
        assert(name@ =~= rest.take(end - at));
        let next: usize = if end < size {
            end + 1
        } else {
            end
        };
        if end < size {
            assert(rest.skip(end - at + 1) =~= chars@.skip(end + 1));
        }
        let ghost tail = if end < size {
            names(chars@.skip(next as int), verbatim)
        } else {
            Seq::empty()
        };
        assert(names(chars@.skip(next as int), verbatim) =~= tail);
        if name.as_str().is_empty() || (!verbatim && same(name.as_str(), ".")) {
            assert(names(rest, verbatim) == tail);
        } else {
            out.push(name);
            assert(text::views(out@) =~= before + seq![name@]);
            assert(text::views(out@) + tail =~= before + (seq![name@] + tail));
        }
        at = next;
    }
    assert(text::views(out@) + names(chars@.skip(at as int), verbatim) =~= text::views(out@));
    out
}

/// The names of a text that is taken as a relative path.
pub fn plain_names(path: &str) -> (r: Vec<String>)
    ensures
        text::views(r@) == names(path@, false),
{
    let chars = chars_of(path);
    assert(chars@.skip(0) =~= path@);
    names_of(chars.as_slice(), 0, false)
}

/// Takes a path apart.
pub fn parse_path(path: &str) -> (r: PathParts)
    ensures
        r@ == parts(path@),
{
    let chars = chars_of(path);
    let (kind, end) = prefix_of(chars.as_slice());
    let verbatim = match kind {
        PrefixKind::Verbatim => true,
        _ => false,
    };
    let prefix = scan::part(chars.as_slice(), 0, end);
    assert(prefix@ =~= path@.take(end as int));
    let rooted = end < chars.len() && separates(chars[end], verbatim);
    let mut names: Vec<String> = Vec::new();
    let alone = match kind {
        PrefixKind::Relative | PrefixKind::Drive => true,
        _ => false,
    };
    if alone {
        let first = scan::part(chars.as_slice(), end, name_end(chars.as_slice(), end, false));
        let ghost rest = path@.skip(end as int);
        assert(first@ =~= rest.take(name_len(rest, false) as int));
        if same(first.as_str(), ".") {
            names.push(first);
        }
    }
    let ghost front = text::views(names@);
    let mut more = names_of(chars.as_slice(), end, verbatim);
    let ghost tail = text::views(more@);
    names.append(&mut more);
    assert(text::views(names@) =~= front + tail);
    let r = PathParts { kind, prefix, rooted, names };
    assert(r@ =~= parts(path@));
    r
}

impl PathParts {
    /// Whether the path names a place whatever the current directory is.
    pub fn is_absolute(&self) -> (r: bool)
        ensures
            r == self@.absolute(),
    {
        match self.kind {
            PrefixKind::Relative => false,
            PrefixKind::Drive => self.rooted,
            PrefixKind::Share => true,
            PrefixKind::Verbatim => true,
        }
    }

    /// Whether a root stands behind the prefix, written or not.
    pub fn has_root(&self) -> (r: bool)
        ensures
            r == self@.has_root(),
    {
        self.rooted || self.kind == PrefixKind::Share
    }

    /// Whether the path has at least so many components.
    pub fn has_components(&self, least: usize) -> (r: bool)
        ensures
            r == (self@.count() >= least),
    {
        let front: usize = (if self.kind == PrefixKind::Relative {
            0usize
        } else {
            1usize
        }) + (if self.has_root() {
            1usize
        } else {
            0usize
        });
        front >= least || self.names.len() >= least - front
    }

    /// The last name, unless it leads to the parent or nowhere.
    pub fn file_name(&self) -> (r: Option<String>)
        ensures
            text::view_opt(r) == self@.file_name(),
    {
        let n: usize = self.names.len();
        if n == 0 {
            return None;
        }
        assert(self@.names.last() == self.names@[n - 1]@);
        if same(self.names[n - 1].as_str(), "..") || same(self.names[n - 1].as_str(), ".") {
            None
        } else {
            Some(self.names[n - 1].clone())
        }
    }

    /// The text of the path.
    pub fn to_text(&self) -> (r: String)
        ensures
            r@ == self@.written(),
    {
        let root: &str = if self.has_root() {
            "\\"
        } else {
            ""
        };
        proof {
            reveal_strlit("");
            assert(""@ =~= Seq::<char>::empty());
        }
        let names = join_texts(self.names.as_slice(), "\\");
        cat3(self.prefix.as_str(), root, names.as_str())
    }
}

fn drive_of(name: &str) -> (r: Option<PathParts>)
    ensures
        match r {
            Some(path) => begins_with_drive(name@) && path@ == on_drive(name@),
            None => !begins_with_drive(name@),
        },
{
    let chars = chars_of(name);
    let size: usize = chars.len();
    if size >= 2 && (('a' <= chars[0] && chars[0] <= 'z') || ('A' <= chars[0] && chars[0] <= 'Z'))
        && chars[1] == ':' {
        let prefix = scan::part(chars.as_slice(), 0, 2);
        assert(prefix@ =~= name@.take(2));
        let mut names: Vec<String> = Vec::new();
        if size > 2 {
            let rest = scan::part(chars.as_slice(), 2, size);
            assert(rest@ =~= name@.skip(2));
            names.push(rest);
        }
        let path = PathParts { kind: PrefixKind::Drive, prefix, rooted: false, names };
        assert(path@ =~= on_drive(name@));
        Some(path)
    } else {
        None
    }
}

fn resolve(whole: &PathParts) -> (r: Option<PathParts>)
    ensures
        match r {
            Some(path) => whole@.resolve() == Some(path@),
            None => whole@.resolve() is None,
        },
{
    let ghost start = whole@.front();
    let ghost all = whole@.names;
    let names = &whole.names;
    let mut out = PathParts {
        kind: whole.kind,
        prefix: whole.prefix.clone(),
        rooted: whole.rooted,
        names: Vec::new(),
    };
    let mut i: usize = 0;
    assert(out@ =~= start);
    assert(all.take(0) =~= Seq::<Seq<char>>::empty());
    while i < names.len()
        invariant
            i <= names@.len(),
            all == text::views(names@),
            all == whole@.names,
            start == whole@.front(),
            resolved(start, all.take(i as int)) == Some(out@),
        decreases names@.len() - i,
    {
        let ghost before = out@;
        assert(all.take(i + 1).drop_last() =~= all.take(i as int));
        assert(all.take(i + 1).last() == names@[i as int]@);
        if same(names[i].as_str(), ".") {
            assert(resolved(start, all.take(i + 1)) == Some(out@));
        } else if same(names[i].as_str(), "..") {
            if out.names.len() > 0 {
                let _ = out.names.pop();
                assert(out@ =~= (PartsView { names: before.names.drop_last(), ..before }));
            } else {
                proof {
                    unresolved_stays(start, all, i + 1);
                }
                return None;
            }
        } else if let Some(path) = drive_of(names[i].as_str()) {
            out = path;
        } else {
            out.names.push(names[i].clone());
            assert(out@ =~= (PartsView { names: before.names.push(names@[i as int]@), ..before }));
        }
        i += 1;
    }
    assert(all.take(i as int) =~= all);
    Some(out)
}

/// If the front of a path leads out of its root, so does all of it.
proof fn unresolved_stays(start: PartsView, names: Seq<Seq<char>>, n: int)
    requires
        0 <= n <= names.len(),
        resolved(start, names.take(n)) is None,
    ensures
        resolved(start, names) is None,
    decreases names.len() - n,
{
    if n == names.len() {
        assert(names.take(n) =~= names);
    } else {
        assert(names.take(n + 1).drop_last() =~= names.take(n));
        unresolved_stays(start, names, n + 1);
    }
}

/// The path without `.` and `..`, or an error if it leads out of its root.
pub fn normalize_path_lexically(path: &str) -> (r: Result<String, String>)
    ensures
        match r {
            Ok(p) => normalized(path@) == Some(p@),
            Err(e) => normalized(path@) is None && e@ == "path escapes its root: "@ + path@,
        },
{
    match resolve(&parse_path(path)) {
        Some(left) => Ok(left.to_text()),
        None => Err(cat2("path escapes its root: ", path)),
    }
}

/// The last name of a path, unless it leads to the parent or nowhere.
pub fn file_name(path: &str) -> (r: Option<String>)
    ensures
        text::view_opt(r) == parts(path@).file_name(),
{
    parse_path(path).file_name()
}

/// The part of a file name behind its last dot; a dot in front does not count.
pub open spec fn extension_of_name(name: Seq<char>) -> Option<Seq<char>> {
    match scan::last_position(name, '.') {
        Some(n) => if n > 0 {
            Some(name.skip(n as int + 1))
        } else {
            None
        },
        None => None,
    }
}

/// The extension of a path.
pub open spec fn extension(path: Seq<char>) -> Option<Seq<char>> {
    match parts(path).file_name() {
        Some(name) => extension_of_name(name),
        None => None,
    }
}

/// The extension of a path.
pub fn extension_of(path: &str) -> (r: Option<String>)
    ensures
        text::view_opt(r) == extension(path@),
{
    match file_name(path) {
        Some(name) => {
            let chars = chars_of(name.as_str());
            let size: usize = chars.len();
            match scan::last_position_of(chars.as_slice(), '.') {
                Some(n) => if n > 0 {
                    let rest = scan::part(chars.as_slice(), n + 1, size);
                    assert(rest@ =~= name@.skip(n as int + 1));
                    Some(rest)
                } else {
                    None
                },
                None => None,
            }
        },
        None => None,
    }
}

/// Whether a path is a drive and nothing more.
pub open spec fn bare_drive(s: Seq<char>) -> bool {
    s.len() == 2 && is_letter(s[0]) && s[1] == ':'
}

/// A path with one more name at its end. The name follows a bare drive at once.
pub open spec fn joined_path(dir: Seq<char>, name: Seq<char>) -> Seq<char> {
    if dir.len() == 0 || is_separator(dir.last(), false) || bare_drive(dir) {
        dir + name
    } else {
        dir + "\\"@ + name
    }
}

/// A path with one more name at its end. The name follows a bare drive at once.
pub fn join(dir: &str, name: &str) -> (r: String)
    ensures
        r@ == joined_path(dir@, name@),
{
    let chars = chars_of(dir);
    let n: usize = chars.len();
    if n == 0 || separates(chars[n - 1], false) || (n == 2 && chars[1] == ':' && (('A' <= chars[0]
        && chars[0] <= 'Z') || ('a' <= chars[0] && chars[0] <= 'z'))) {
        cat2(dir, name)
    } else {
        cat3(dir, "\\", name)
    }
}

/// The text that `str::to_lowercase` makes.
pub uninterp spec fn lowercase(s: Seq<char>) -> Seq<char>;

/// Whether all characters of a text are of the ASCII alphabet.
pub open spec fn all_ascii(s: Seq<char>) -> bool {
    forall|i: int| 0 <= i < s.len() ==> (#[trigger] s[i] as u32) < 128
}

/// `str::to_lowercase`: the name stands for the text; in an ASCII text just the letters from
/// `A` to `Z` change.
#[verifier::external_body]
fn lowercase_text(s: &str) -> (r: String)
    ensures
        r@ == lowercase(s@),
        all_ascii(s@) ==> r@ == scan::lower_all(s@),
{
    s.to_lowercase()
}

/// A component of a path.
#[derive(Debug)]
pub enum Component {
    Prefix(PrefixKind, String),
    Root,
    Name(String),
}

/// The mathematical form of a component.
pub enum ComponentView {
    Prefix(PrefixKind, Seq<char>),
    Root,
    Name(Seq<char>),
}

impl View for Component {
    type V = ComponentView;

    open spec fn view(&self) -> ComponentView {
        match *self {
            Component::Prefix(kind, text) => ComponentView::Prefix(kind, text@),
            Component::Root => ComponentView::Root,
            Component::Name(name) => ComponentView::Name(name@),
        }
    }
}

/// The views of a list of components.
pub open spec fn components_view(v: Seq<Component>) -> Seq<ComponentView> {
    v.map_values(|c: Component| c@)
}

/// A character with a slash turned into a backslash.
pub open spec fn backslash(c: char) -> char {
    if c == '/' {
        '\\'
    } else {
        c
    }
}

/// A prefix in the form in which prefixes are compared: the case of a drive letter does not
/// count, nor which separator a share is written with.
pub open spec fn canonical_prefix(kind: PrefixKind, prefix: Seq<char>) -> Seq<char> {
    match kind {
        PrefixKind::Drive => scan::lower_all(prefix),
        PrefixKind::Share => prefix.map_values(|c: char| backslash(c)),
        PrefixKind::Verbatim => if prefix.len() == 6 && prefix[5] == ':' {
            scan::lower_all(prefix)
        } else {
            prefix
        },
        PrefixKind::Relative => prefix,
    }
}

impl PartsView {
    /// The components of the path.
    pub open spec fn components(self) -> Seq<ComponentView> {
        (if self.kind == PrefixKind::Relative {
            Seq::empty()
        } else {
            seq![ComponentView::Prefix(self.kind, canonical_prefix(self.kind, self.prefix))]
        }) + (if self.has_root() {
            seq![ComponentView::Root]
        } else {
            Seq::empty()
        }) + self.names.map_values(|n: Seq<char>| ComponentView::Name(n))
    }
}

/// Whether a list begins with another.
pub open spec fn begins<T>(s: Seq<T>, p: Seq<T>) -> bool {
    s.len() >= p.len() && s.take(p.len() as int) == p
}

/// Whether a path is another one or lies under it, whatever the case of its letters: its
/// components begin with those of the other, or its text does, up to a separator.
pub open spec fn under(path: Seq<char>, base: Seq<char>) -> bool {
    let p = lowercase(path);
    let b = lowercase(base);
    ||| begins(parts(path).components(), parts(base).components())
    ||| p == b
    ||| scan::starts(p, b + "\\"@)
    ||| scan::starts(p, b + "/"@)
}

fn with_backslashes(s: &str) -> (r: String)
    ensures
        r@ == s@.map_values(|c: char| backslash(c)),
{
    let chars = chars_of(s);
    let mut out = String::new();
    let mut i: usize = 0;
    while i < chars.len()
        invariant
            i <= chars@.len(),
            chars@ == s@,
            out@ == s@.take(i as int).map_values(|c: char| backslash(c)),
        decreases chars@.len() - i,
    {
        let c: char = if chars[i] == '/' {
            '\\'
        } else {
            chars[i]
        };
        out.push(c);
        i += 1;
        assert(out@ =~= s@.take(i as int).map_values(|c: char| backslash(c)));
    }
    assert(s@.take(i as int) =~= s@);
    out
}

fn components_of(parsed: &PathParts) -> (r: Vec<Component>)
    ensures
        components_view(r@) == parsed@.components(),
{
    let mut out: Vec<Component> = Vec::new();
    match parsed.kind {
        PrefixKind::Relative => {},
        PrefixKind::Drive => {
            out.push(Component::Prefix(parsed.kind, scan::lower_text(parsed.prefix.as_str())));
        },
        PrefixKind::Share => {
            out.push(Component::Prefix(parsed.kind, with_backslashes(parsed.prefix.as_str())));
        },
        PrefixKind::Verbatim => {
            let chars = chars_of(parsed.prefix.as_str());
            if chars.len() == 6 && chars[5] == ':' {
                out.push(Component::Prefix(parsed.kind, scan::lower_text(parsed.prefix.as_str())));
            } else {
                out.push(Component::Prefix(parsed.kind, parsed.prefix.clone()));
            }
        },
    }
    if parsed.has_root() {
        out.push(Component::Root);
    }
    let ghost front = components_view(out@);
    let ghost all = parsed@.names.map_values(|n: Seq<char>| ComponentView::Name(n));
    let mut i: usize = 0;
    assert(front =~= front + all.take(0));
    while i < parsed.names.len()
        invariant
            i <= parsed.names@.len(),
            all == parsed@.names.map_values(|n: Seq<char>| ComponentView::Name(n)),
            components_view(out@) == front + all.take(i as int),
        decreases parsed.names@.len() - i,
    {
        let ghost before = components_view(out@);
        out.push(Component::Name(parsed.names[i].clone()));
        assert(components_view(out@) =~= before.push(all[i as int]));
        assert(front + all.take(i + 1) =~= (front + all.take(i as int)).push(all[i as int]));
        i += 1;
    }
    assert(all.take(i as int) =~= all);
    assert(components_view(out@) =~= parsed@.components());
    out
}

fn same_component(a: &Component, b: &Component) -> (r: bool)
    ensures
        r == (a@ == b@),
{
    match (a, b) {
        (Component::Prefix(k, p), Component::Prefix(l, q)) => *k == *l && same(
            p.as_str(),
            q.as_str(),
        ),
        (Component::Root, Component::Root) => true,
        (Component::Name(p), Component::Name(q)) => same(p.as_str(), q.as_str()),
        _ => false,
    }
}

fn starts_with_components(path: &str, base: &str) -> (r: bool)
    ensures
        r == begins(parts(path@).components(), parts(base@).components()),
{
    let p = components_of(&parse_path(path));
    let b = components_of(&parse_path(base));
    let ghost ps = parts(path@).components();
    let ghost bs = parts(base@).components();
    if p.len() < b.len() {
        return false;
    }
    let mut i: usize = 0;
    while i < b.len()
        invariant
            i <= b@.len() <= p@.len(),
            ps == parts(path@).components(),
            bs == parts(base@).components(),
            ps == components_view(p@),
            bs == components_view(b@),
            forall|j: int| 0 <= j < i ==> ps[j] == #[trigger] bs[j],
        decreases b@.len() - i,
    {
        assert(ps[i as int] == p@[i as int]@);
        assert(bs[i as int] == b@[i as int]@);
        if !same_component(&p[i], &b[i]) {
            assert(ps.take(bs.len() as int)[i as int] != bs[i as int]);
            return false;
        }
        i += 1;
    }
    assert(ps.take(bs.len() as int) =~= bs);
    true
}

/// Whether two paths have the same components.
pub fn same_path(left: &str, right: &str) -> (r: bool)
    ensures
        r == (parts(left@).components() == parts(right@).components()),
{
    let r = starts_with_components(left, right) && starts_with_components(right, left);
    proof {
        let l = parts(left@).components();
        let k = parts(right@).components();
        assert(l.take(l.len() as int) =~= l);
        assert(k.take(k.len() as int) =~= k);
    }
    r
}

/// Whether a path is another one or lies under it, whatever the case of its letters.
pub fn path_starts_with_case_insensitive(path: &str, base: &str) -> (r: bool)
    ensures
        r == under(path@, base@),
{
    if starts_with_components(path, base) {
        return true;
    }
    let p = lowercase_text(path);
    let b = lowercase_text(base);
    same(p.as_str(), b.as_str()) || scan::starts_with(p.as_str(), cat2(b.as_str(), "\\").as_str())
        || scan::starts_with(p.as_str(), cat2(b.as_str(), "/").as_str())
}

/// Whether two paths are the same but for the case of ASCII letters.
pub fn path_eq_case_insensitive(left: &str, right: &str) -> (r: bool)
    ensures
        r == (scan::lower_all(left@) == scan::lower_all(right@)),
{
    scan::same_fold(left, right)
}

/// A path as `label` must name it: absolute, and without `.` and `..`.
pub open spec fn absolute_path(path: Seq<char>, label: Seq<char>) -> Result<Seq<char>, Seq<char>> {
    if path.len() == 0 {
        Err(label + " must not be empty"@)
    } else if !parts(path).absolute() {
        Err(label + " must be an absolute path: "@ + path)
    } else {
        match normalized(path) {
            Some(p) => Ok(p),
            None => Err("path escapes its root: "@ + path),
        }
    }
}

/// Checks a path that must be absolute, and normalizes it.
pub fn normalize_absolute_required(path: &str, label: &str) -> (r: Result<String, String>)
    ensures
        match r {
            Ok(p) => absolute_path(path@, label@) matches Ok(a) && a == p@,
            Err(e) => absolute_path(path@, label@) matches Err(m) && m == e@,
        },
{
    if path.is_empty() {
        return Err(cat2(label, " must not be empty"));
    }
    if !parse_path(path).is_absolute() {
        return Err(cat3(label, " must be an absolute path: ", path));
    }
    normalize_path_lexically(path)
}

/// Whether a text is a name as paths hold them between separators.
pub open spec fn plain_name(name: Seq<char>, verbatim: bool) -> bool {
    &&& name.len() > 0
    &&& name != "."@
    &&& forall|i: int| 0 <= i < name.len() ==> !is_separator(#[trigger] name[i], verbatim)
}

/// Whether a text is such a name, or a dot.
pub open spec fn plain_or_dot(name: Seq<char>, verbatim: bool) -> bool {
    plain_name(name, verbatim) || name == "."@
}

/// A name ends where the first separator stands.
proof fn name_in_front(a: Seq<char>, c: char, b: Seq<char>, verbatim: bool)
    requires
        is_separator(c, verbatim),
    ensures
        name_len(a.push(c) + b, verbatim) == name_len(a, verbatim),
        name_len(a, verbatim) <= a.len(),
    decreases a.len(),
{
    let s = a.push(c) + b;
    if a.len() > 0 {
        assert(s[0] == a[0]);
        assert(s.drop_first() =~= a.drop_first().push(c) + b);
        name_in_front(a.drop_first(), c, b, verbatim);
    } else {
        assert(s[0] == c);
    }
}

/// The names of two paths with a separator between them are those of the one and those of the
/// other.
proof fn names_of_both(a: Seq<char>, c: char, b: Seq<char>, verbatim: bool)
    requires
        is_separator(c, verbatim),
    ensures
        names(a.push(c) + b, verbatim) == names(a, verbatim) + names(b, verbatim),
    decreases a.len(),
{
    let s = a.push(c) + b;
    let n = name_len(a, verbatim);
    name_in_front(a, c, b, verbatim);
    assert(s.take(n as int) =~= a.take(n as int));
    if n < a.len() {
        let rest = a.skip(n as int + 1);
        assert(s.skip(n as int + 1) =~= rest.push(c) + b);
        names_of_both(rest, c, b, verbatim);
    } else {
        assert(s.skip(n as int + 1) =~= b);
    }
    assert(names(s, verbatim) =~= names(a, verbatim) + names(b, verbatim));
}

/// What stands between separators is a plain name or a dot.
proof fn names_are_plain(s: Seq<char>, verbatim: bool)
    ensures
        forall|i: int|
            0 <= i < names(s, verbatim).len() ==> plain_or_dot(#[trigger] names(s, verbatim)[i], verbatim),
    decreases s.len(),
{
    if s.len() > 0 {
        let n = name_len(s, verbatim);
        let head = s.take(n as int);
        name_before(s, verbatim);
        let rest = if n < s.len() {
            names(s.skip(n as int + 1), verbatim)
        } else {
            Seq::empty()
        };
        if n < s.len() {
            names_are_plain(s.skip(n as int + 1), verbatim);
        }
        let all = names(s, verbatim);
        assert forall|i: int| 0 <= i < all.len() implies plain_or_dot(#[trigger] all[i], verbatim) by {
            if head.len() == 0 || (head == "."@ && !verbatim) {
                assert(all == rest);
                assert(plain_or_dot(rest[i], verbatim));
            } else if i > 0 {
                assert(all[i] == rest[i - 1]);
            } else {
                assert(all[i] == head);
            }
        }
    }
}

/// No separator stands in front of the end of a name.
proof fn name_before(s: Seq<char>, verbatim: bool)
    ensures
        name_len(s, verbatim) <= s.len(),
        name_len(s, verbatim) < s.len() ==> is_separator(s[name_len(s, verbatim) as int], verbatim),
        forall|i: int| 0 <= i < name_len(s, verbatim) ==> !is_separator(#[trigger] s[i], verbatim),
    decreases s.len(),
{
    if s.len() > 0 && !is_separator(s[0], verbatim) {
        let rest = s.drop_first();
        name_before(rest, verbatim);
        assert forall|i: int| 0 <= i < name_len(s, verbatim) implies !is_separator(
            #[trigger] s[i],
            verbatim,
        ) by {
            if i > 0 {
                assert(rest[i - 1] == s[i]);
            }
        }
    }
}

/// A text without separators is all name.
proof fn all_name(s: Seq<char>, verbatim: bool)
    requires
        forall|i: int| 0 <= i < s.len() ==> !is_separator(#[trigger] s[i], verbatim),
    ensures
        name_len(s, verbatim) == s.len(),
    decreases s.len(),
{
    if s.len() > 0 {
        let rest = s.drop_first();
        assert forall|i: int| 0 <= i < rest.len() implies !is_separator(#[trigger] rest[i], verbatim) by {
            assert(rest[i] == s[i + 1]);
        }
        all_name(rest, verbatim);
    }
}

/// Plain names are found again in the path that they make.
proof fn joined_names_are_found(all: Seq<Seq<char>>, verbatim: bool)
    requires
        forall|i: int| 0 <= i < all.len() ==> plain_name(#[trigger] all[i], verbatim),
    ensures
        names(text::joined(all, "\\"@), verbatim) == all,
        all.len() > 0 ==> text::joined(all, "\\"@).len() > 0 && text::joined(all, "\\"@)[0]
            == all[0][0],
    decreases all.len(),
{
    if all.len() > 0 {
        let last = all.last();
        all_name(last, verbatim);
        assert(last.take(last.len() as int) =~= last);
        assert(names(last, verbatim) =~= seq![last]);
        if all.len() > 1 {
            let front = all.drop_last();
            joined_names_are_found(front, verbatim);
            reveal_strlit("\\");
            let before = text::joined(front, "\\"@);
            assert(before + "\\"@ + last =~= before.push('\\') + last);
            names_of_both(before, '\\', last, verbatim);
            assert(front + seq![last] =~= all);
        } else {
            assert(seq![last] =~= all);
        }
    } else {
        assert(names(text::joined(all, "\\"@), verbatim) =~= all);
    }
}

/// Whether names can stand in a normalized path.
pub open spec fn settled(names: Seq<Seq<char>>, verbatim: bool) -> bool {
    forall|i: int|
        #![trigger names[i]]
        0 <= i < names.len() ==> plain_name(names[i], verbatim) && names[i] != ".."@
}

/// Whether no name has a drive in front of it.
pub open spec fn undriven(names: Seq<Seq<char>>) -> bool {
    forall|i: int| 0 <= i < names.len() ==> !begins_with_drive(#[trigger] names[i])
}

/// What is left of plain names: names that can stand in a normalized path, none of which begins
/// with a drive; or, if there was one that does, names on a drive.
proof fn resolved_facts(start: PartsView, all: Seq<Seq<char>>, verbatim: bool)
    requires
        start.names.len() == 0,
        forall|i: int| 0 <= i < all.len() ==> plain_or_dot(#[trigger] all[i], verbatim),
    ensures
        resolved(start, all) matches Some(left) ==> if undriven(all) {
            left.front() == start && settled(left.names, verbatim) && undriven(left.names)
        } else {
            left.kind == PrefixKind::Drive && begins_with_drive(left.prefix) && left.prefix.len()
                == 2 && !left.rooted
        },
    decreases all.len(),
{
    if all.len() > 0 {
        let front = all.drop_last();
        assert(forall|i: int| 0 <= i < front.len() ==> front[i] == all[i]);
        resolved_facts(start, front, verbatim);
        assert(plain_or_dot(all[all.len() - 1], verbatim));
        reveal_strlit(".");
        assert(undriven(all) <==> undriven(front) && !begins_with_drive(all.last())) by {
            assert(all.last() == all[all.len() - 1]);
            if undriven(front) && !begins_with_drive(all.last()) {
                assert forall|i: int| 0 <= i < all.len() implies !begins_with_drive(
                    #[trigger] all[i],
                ) by {
                    if i < front.len() {
                        assert(front[i] == all[i]);
                    }
                }
            }
        }
        if let Some(left) = resolved(start, all) {
            let before = resolved(start, front)->0;
            assert(left.front() =~= before.front() || left == on_drive(all.last()));
            reveal_strlit("..");
        }
    } else {
        assert(start.front() =~= start);
    }
}

/// Names that can stand in a normalized path, and none of which begins with a drive, are left.
proof fn settled_names_are_left(start: PartsView, all: Seq<Seq<char>>, verbatim: bool)
    requires
        start.names.len() == 0,
        settled(all, verbatim),
        undriven(all),
    ensures
        resolved(start, all) == Some(PartsView { names: all, ..start }),
    decreases all.len(),
{
    if all.len() > 0 {
        let front = all.drop_last();
        assert forall|i: int|
            #![trigger front[i]]
            0 <= i < front.len() implies plain_name(front[i], verbatim) && front[i] != ".."@
            && !begins_with_drive(front[i]) by {
            assert(front[i] == all[i]);
        }
        settled_names_are_left(start, front, verbatim);
        assert(all[all.len() - 1] != ".."@);
        assert(front.push(all.last()) =~= all);
    } else {
        assert(all =~= start.names);
    }
}

/// A list of texts with separators begins with the first of them.
proof fn joined_from_front(all: Seq<Seq<char>>)
    requires
        all.len() > 1,
    ensures
        text::joined(all, "\\"@) == all[0].push('\\') + text::joined(all.skip(1), "\\"@),
    decreases all.len(),
{
    reveal_strlit("\\");
    let front = all.drop_last();
    let tail = all.skip(1);
    if all.len() == 2 {
        assert(text::joined(front, "\\"@) == all[0]);
        assert(text::joined(tail, "\\"@) == all[1]);
    } else {
        joined_from_front(front);
        assert(front.skip(1) =~= tail.drop_last());
    }
    assert(text::joined(all, "\\"@) =~= all[0].push('\\') + text::joined(tail, "\\"@));
}

/// Whether normalizing a path moves it to a drive that stands in front of one of its names, and
/// what is left there would not stay as it is.
pub open spec fn hides_a_drive(path: Seq<char>) -> bool {
    let whole = parts(path);
    !undriven(whole.names) && (whole.resolve() matches Some(left) && !(settled(left.names, false)
        && undriven(left.names)))
}

/// The names behind a root are found again.
proof fn rooted_names_are_found(left: Seq<Seq<char>>, verbatim: bool)
    requires
        forall|i: int| 0 <= i < left.len() ==> plain_name(#[trigger] left[i], verbatim),
    ensures
        names(seq!['\\'] + text::joined(left, "\\"@), verbatim) == left,
{
    let text = text::joined(left, "\\"@);
    joined_names_are_found(left, verbatim);
    names_of_both(Seq::empty(), '\\', text, verbatim);
    assert(Seq::<char>::empty().push('\\') + text =~= seq!['\\'] + text);
    assert(Seq::<Seq<char>>::empty() + left =~= left);
}

/// A name that a separator or nothing follows is as long as it is.
proof fn name_stays(name: Seq<char>, rest: Seq<char>, verbatim: bool)
    requires
        forall|i: int| 0 <= i < name.len() ==> !is_separator(#[trigger] name[i], verbatim),
        rest.len() > 0 ==> is_separator(rest[0], verbatim),
    ensures
        name_len(name + rest, verbatim) == name.len(),
{
    all_name(name, verbatim);
    if rest.len() > 0 {
        name_in_front(name, rest[0], rest.drop_first(), verbatim);
        assert(name.push(rest[0]) + rest.drop_first() =~= name + rest);
    } else {
        assert(name + rest =~= name);
    }
}

/// A pair of names that a separator or nothing follows is as long as it is.
proof fn pair_stays(a: Seq<char>, c: char, b: Seq<char>, rest: Seq<char>, verbatim: bool)
    requires
        forall|i: int| 0 <= i < a.len() ==> !is_separator(#[trigger] a[i], verbatim),
        forall|i: int| 0 <= i < b.len() ==> !is_separator(#[trigger] b[i], verbatim),
        is_separator(c, verbatim),
        b.len() > 0,
        rest.len() > 0 ==> is_separator(rest[0], verbatim),
    ensures
        pair_len(a.push(c) + (b + rest), verbatim) == a.len() + 1 + b.len(),
        a.len() > 0 ==> is_pair(a.push(c) + (b + rest), verbatim),
{
    let s = a.push(c) + (b + rest);
    let behind = seq![c] + (b + rest);
    name_stays(a, behind, verbatim);
    assert(a + behind =~= s);
    assert(s.skip(a.len() as int + 1) =~= b + rest);
    name_stays(b, rest, verbatim);
}

/// What a normalized path begins with is what the path began with: a share or a device.
proof fn share_prefix_stays(path: Seq<char>, rest: Seq<char>)
    requires
        parts(path).kind == PrefixKind::Share,
        rest.len() > 0 ==> is_separator(rest[0], false),
    ensures
        prefix(parts(path).prefix + rest) == (PrefixKind::Share, parts(path).prefix.len()),
{
    reveal_strlit("\\\\?\\UNC\\");
    reveal_strlit("\\\\?\\");
    let n = prefix(path).1 as int;
    let head = path.take(n);
    let p = head + rest;
    let device = path.len() >= 4 && is_separator(path[0], false) && is_separator(path[1], false)
        && path[2] == '.' && is_separator(path[3], false);
    if device {
        let m = path.skip(4);
        name_before(m, false);
        let k = name_len(m, false) as int;
        assert(n == 4 + k);
        name_stays(m.take(k), rest, false);
        assert(p.skip(4) =~= m.take(k) + rest);
        assert(p[0] == path[0] && p[1] == path[1] && p[2] == path[2] && p[3] == path[3]);
    } else {
        let m = path.skip(2);
        name_before(m, false);
        let f = name_len(m, false) as int;
        let second = m.skip(f + 1);
        name_before(second, false);
        let g = name_len(second, false) as int;
        assert(n == 2 + f + 1 + g);
        let a = m.take(f);
        let b = second.take(g);
        pair_stays(a, m[f], b, rest, false);
        assert(p.skip(2) =~= a.push(m[f]) + (b + rest));
        assert(p[0] == path[0] && p[1] == path[1] && p[2] == path[2] && p[3] == path[3]);
    }
    assert(!scan::starts(p, "\\\\?\\"@)) by {
        if scan::starts(p, "\\\\?\\"@) {
            assert(p.take(4) =~= path.take(4));
        }
    }
    assert(!scan::starts(p, "\\\\?\\UNC\\"@)) by {
        if scan::starts(p, "\\\\?\\UNC\\"@) {
            assert(p.take(4) =~= "\\\\?\\UNC\\"@.take(4)) by {
                assert(p.take(4) =~= p.take(8).take(4));
            }
            assert("\\\\?\\UNC\\"@.take(4) =~= "\\\\?\\"@);
        }
    }
    assert(head.len() == n);
}

proof fn normal_share_path_stays(path: Seq<char>, left: Seq<Seq<char>>)
    requires
        parts(path).kind == PrefixKind::Share,
        settled(left, false),
    ensures
        ({
            let p = (PartsView { names: left, ..parts(path) }).written();
            parts(p) == (PartsView { names: left, rooted: true, ..parts(path) }) && parts(
                p,
            ).written() == p
        }),
{
    reveal_strlit("\\");
    let whole = parts(path);
    let p = (PartsView { names: left, ..whole }).written();
    let rest = seq!['\\'] + text::joined(left, "\\"@);
    assert(p =~= whole.prefix + rest);
    share_prefix_stays(path, rest);
    rooted_names_are_found(left, false);
    assert(p.skip(whole.prefix.len() as int) =~= rest);
    assert(p.take(whole.prefix.len() as int) =~= whole.prefix);
}

/// No dot stands in front of names that can stand in a normalized path, nor in front of a
/// separator.
proof fn no_dot_in_front(left: Seq<Seq<char>>)
    requires
        settled(left, false),
    ensures
        !dot_in_front(text::joined(left, "\\"@)),
        !dot_in_front(seq!['\\'] + text::joined(left, "\\"@)),
{
    reveal_strlit(".");
    let text = text::joined(left, "\\"@);
    let behind = seq!['\\'] + text;
    assert(behind[0] == '\\');
    assert(behind.take(name_len(behind, false) as int).len() == 0);
    if left.len() == 0 {
        assert(text =~= Seq::<char>::empty());
        assert(text.take(name_len(text, false) as int).len() == 0);
    } else {
        let first = left[0];
        assert(plain_name(left[0], false));
        let rest = if left.len() > 1 {
            seq!['\\'] + text::joined(left.skip(1), "\\"@)
        } else {
            Seq::empty()
        };
        if left.len() > 1 {
            joined_from_front(left);
        }
        assert(text =~= first + rest);
        name_stays(first, rest, false);
        assert(text.take(first.len() as int) =~= first);
    }
}

proof fn normal_drive_path_stays(v: PartsView)
    requires
        v.kind == PrefixKind::Drive,
        v.prefix.len() == 2,
        begins_with_drive(v.prefix),
        settled(v.names, false),
    ensures
        parts(v.written()) == v,
{
    reveal_strlit("\\");
    let text = text::joined(v.names, "\\"@);
    let p = v.written();
    joined_names_are_found(v.names, false);
    no_dot_in_front(v.names);
    assert(p[0] == v.prefix[0] && p[1] == ':');
    not_verbatim(p);
    assert(prefix(p) == (PrefixKind::Drive, 2nat));
    assert(p.take(2) =~= v.prefix);
    if v.rooted {
        rooted_names_are_found(v.names, false);
        assert(p.skip(2) =~= seq!['\\'] + text);
    } else {
        assert(p.skip(2) =~= text);
        if v.names.len() > 0 {
            assert(plain_name(v.names[0], false));
            assert(!is_separator(v.names[0][0], false));
        }
    }
    assert(parts(p) =~= v);
}

/// A text whose second character is no backslash is not to be taken as it is written.
proof fn not_verbatim(p: Seq<char>)
    requires
        p.len() > 1 ==> p[1] != '\\',
    ensures
        !scan::starts(p, "\\\\?\\UNC\\"@),
        !scan::starts(p, "\\\\?\\"@),
{
    reveal_strlit("\\\\?\\UNC\\");
    reveal_strlit("\\\\?\\");
    if scan::starts(p, "\\\\?\\UNC\\"@) {
        assert(p.take(8)[1] == p[1]);
    }
    if scan::starts(p, "\\\\?\\"@) {
        assert(p.take(4)[1] == p[1]);
    }
}

proof fn normal_relative_path_stays(path: Seq<char>, left: Seq<Seq<char>>)
    requires
        parts(path).kind == PrefixKind::Relative,
        settled(left, false),
        undriven(left),
    ensures
        ({
            let v = PartsView { names: left, ..parts(path) };
            parts(v.written()) == v
        }),
{
    reveal_strlit("\\");
    let whole = parts(path);
    let text = text::joined(left, "\\"@);
    let p = (PartsView { names: left, ..whole }).written();
    joined_names_are_found(left, false);
    no_dot_in_front(left);
    assert(whole.prefix =~= Seq::<char>::empty());
    if left.len() > 0 {
        assert(plain_name(left[0], false));
        assert(text[0] == left[0][0]);
        assert(!is_separator(left[0][0], false));
    }
    if whole.rooted {
        assert(p =~= seq!['\\'] + text);
        rooted_names_are_found(left, false);
        not_verbatim(p);
        assert(p.skip(0) =~= p);
        assert(p.take(0) =~= Seq::<char>::empty());
        assert(parts(p) =~= (PartsView { names: left, ..whole }));
    } else {
        assert(p =~= text);
        if left.len() > 1 {
            joined_from_front(left);
        }
        if p.len() > 1 && left[0].len() > 1 {
            assert(p[1] == left[0][1]);
            assert(!is_separator(left[0][1], false));
        }
        assert(p.len() > 0 ==> !is_separator(p[0], false));
        assert(!scan::starts(p, "\\\\?\\UNC\\"@) && !scan::starts(p, "\\\\?\\"@)) by {
            reveal_strlit("\\\\?\\UNC\\");
            reveal_strlit("\\\\?\\");
            if scan::starts(p, "\\\\?\\UNC\\"@) {
                assert(p.take(8)[0] == p[0]);
            }
            if scan::starts(p, "\\\\?\\"@) {
                assert(p.take(4)[0] == p[0]);
            }
        }
        assert(left.len() > 0 ==> !begins_with_drive(left[0]));
        assert(prefix(p) == (PrefixKind::Relative, 0nat));
        assert(p.skip(0) =~= p);
        assert(p.take(0) =~= Seq::<char>::empty());
        assert(parts(p) =~= (PartsView { names: left, ..whole }));
    }
}

/// Whether a normalized path that is taken as written stays as it is.
spec fn verbatim_stays(p: Seq<char>) -> bool {
    &&& parts(p).written() == p
    &&& parts(p).kind == PrefixKind::Verbatim
    &&& settled(parts(p).names, true)
    &&& undriven(parts(p).names)
}

proof fn normal_verbatim_path_stays(path: Seq<char>, left: Seq<Seq<char>>)
    requires
        parts(path).kind == PrefixKind::Verbatim,
        parts(path).names.len() == 0 ==> left.len() == 0,
        settled(left, true),
        undriven(left),
    ensures
        verbatim_stays((PartsView { names: left, ..parts(path) }).written()),
{
    reveal_strlit("\\\\?\\UNC\\");
    reveal_strlit("\\\\?\\");
    reveal_strlit("\\");
    let whole = parts(path);
    let n = prefix(path).1 as int;
    let p = (PartsView { names: left, ..whole }).written();
    verbatim_prefix_fits(path);
    if !whole.rooted {
        assert(path.skip(n).len() == 0);
        assert(names(path.skip(n), true) =~= Seq::<Seq<char>>::empty());
        assert(left =~= Seq::<Seq<char>>::empty());
        assert(p =~= path);
        assert(whole.names =~= left);
    } else {
        assert(p =~= path.take(n) + (seq!['\\'] + text::joined(left, "\\"@)));
        if scan::starts(path, "\\\\?\\UNC\\"@) {
            normal_verbatim_share_stays(path, left);
        } else {
            normal_verbatim_device_stays(path, left);
        }
    }
}

/// What follows the front of a path that is taken as written begins with a separator.
proof fn verbatim_prefix_fits(path: Seq<char>)
    requires
        prefix(path).0 == PrefixKind::Verbatim,
    ensures
        ({
            let n = prefix(path).1 as int;
            n <= path.len() && (n < path.len() ==> path[n] == '\\')
        }),
{
    reveal_strlit("\\\\?\\UNC\\");
    reveal_strlit("\\\\?\\");
    let start = if scan::starts(path, "\\\\?\\UNC\\"@) {
        8int
    } else {
        4int
    };
    let m = path.skip(start);
    name_before(m, true);
    let f = name_len(m, true) as int;
    if f < m.len() {
        name_before(m.skip(f + 1), true);
    }
}

proof fn normal_verbatim_device_stays(path: Seq<char>, left: Seq<Seq<char>>)
    requires
        prefix(path).0 == PrefixKind::Verbatim,
        !scan::starts(path, "\\\\?\\UNC\\"@),
        prefix(path).1 < path.len(),
        settled(left, true),
        undriven(left),
    ensures
        verbatim_stays(
            path.take(prefix(path).1 as int) + (seq!['\\'] + text::joined(left, "\\"@)),
        ),
{
    reveal_strlit("\\\\?\\");
    reveal_strlit("\\");
    let n = prefix(path).1 as int;
    let m = path.skip(4);
    name_before(m, true);
    let rest = seq!['\\'] + text::joined(left, "\\"@);
    let p = path.take(n) + rest;
    rooted_names_are_found(left, true);
    assert(p.take(n) =~= path.take(n));
    assert(p.skip(n) =~= rest);
    name_stays(m.take(n - 4), rest, true);
    assert(p.skip(4) =~= m.take(n - 4) + rest);
    assert(p.take(4) =~= path.take(4));
    verbatim_stays_plain(path, p, n);
    assert(prefix(p) == (PrefixKind::Verbatim, n as nat));
    assert(parts(p).names == left);
    assert(parts(p).written() =~= p);
}

proof fn normal_verbatim_share_stays(path: Seq<char>, left: Seq<Seq<char>>)
    requires
        prefix(path).0 == PrefixKind::Verbatim,
        scan::starts(path, "\\\\?\\UNC\\"@),
        prefix(path).1 < path.len(),
        settled(left, true),
        undriven(left),
    ensures
        verbatim_stays(
            path.take(prefix(path).1 as int) + (seq!['\\'] + text::joined(left, "\\"@)),
        ),
{
    reveal_strlit("\\\\?\\UNC\\");
    reveal_strlit("\\");
    let n = prefix(path).1 as int;
    let m = path.skip(8);
    name_before(m, true);
    let f = name_len(m, true) as int;
    let a = m.take(f);
    let rest = seq!['\\'] + text::joined(left, "\\"@);
    let p = path.take(n) + rest;
    let second = m.skip(f + 1);
    if f < m.len() {
        name_before(second, true);
    }
    let g = name_len(second, true) as int;
    let paired = f + 1 < m.len() && g > 0;
    if !paired && left.len() > 0 {
        assert(n == 8 + f);
        single_share_stays(path, left, f);
        let tail = left.skip(1);
        assert forall|i: int|
            #![trigger tail[i]]
            0 <= i < tail.len() implies plain_name(tail[i], true) && tail[i] != ".."@
            && !begins_with_drive(tail[i]) by {
            assert(tail[i] == left[i + 1]);
        }
    } else {
        rooted_names_are_found(left, true);
        assert(p.take(8) =~= path.take(8));
        assert(p.take(n) =~= path.take(n));
        assert(p.skip(n) =~= rest);
        if paired {
            let b = second.take(g);
            pair_stays(a, m[f], b, rest, true);
            assert(p.skip(8) =~= a.push(m[f]) + (b + rest));
        } else {
            name_stays(a, rest, true);
            assert(p.skip(8) =~= a + rest);
            assert(rest.len() == 1);
        }
        assert(prefix(p) == (PrefixKind::Verbatim, n as nat));
        assert(parts(p).names == left);
        assert(parts(p).written() =~= p);
    }
}

/// A text that is taken as written and names no share does not begin to name one.
proof fn verbatim_stays_plain(path: Seq<char>, p: Seq<char>, n: int)
    requires
        !scan::starts(path, "\\\\?\\UNC\\"@),
        scan::starts(path, "\\\\?\\"@),
        n == 4 + name_len(path.skip(4), true),
        n < path.len(),
        n < p.len(),
        p.take(n) == path.take(n),
        p[n] == '\\',
    ensures
        !scan::starts(p, "\\\\?\\UNC\\"@),
{
    reveal_strlit("\\\\?\\UNC\\");
    reveal_strlit("\\\\?\\");
    let u = "\\\\?\\UNC\\"@;
    name_before(path.skip(4), true);
    assert(path[n] == path.skip(4)[n - 4]);
    assert(path[n] == '\\');
    if scan::starts(p, u) {
        assert forall|i: int| 0 <= i < 8 implies p[i] == u[i] by {
            assert(p.take(8)[i] == p[i]);
        }
        if n < 8 {
            assert(p[n] == u[n]);
            assert(n == 7);
        }
        assert(path.take(8) =~= u) by {
            assert forall|i: int| 0 <= i < 8 implies path.take(8)[i] == u[i] by {
                assert(p[i] == u[i]);
                if i < n {
                    assert(path.take(n)[i] == p.take(n)[i]);
                }
            }
        }
    }
}

/// A server that no share is named of, but names behind two separators: the first of these names
/// becomes the share.
proof fn single_share_stays(path: Seq<char>, left: Seq<Seq<char>>, f: int)
    requires
        scan::starts(path, "\\\\?\\UNC\\"@),
        f == name_len(path.skip(8), true),
        8 + f <= path.len(),
        left.len() > 0,
        settled(left, true),
    ensures
        ({
            let p = path.take(8 + f) + (seq!['\\'] + text::joined(left, "\\"@));
            &&& parts(p).written() == p
            &&& parts(p).kind == PrefixKind::Verbatim
            &&& parts(p).names == left.skip(1)
        }),
{
    reveal_strlit("\\\\?\\UNC\\");
    reveal_strlit("\\");
    let m = path.skip(8);
    name_before(m, true);
    let a = m.take(f);
    let p = path.take(8 + f) + (seq!['\\'] + text::joined(left, "\\"@));
    let b = left[0];
    let tail = left.skip(1);
    assert(plain_name(left[0], true));
    let rest = if left.len() > 1 {
        seq!['\\'] + text::joined(tail, "\\"@)
    } else {
        Seq::empty()
    };
    if left.len() > 1 {
        joined_from_front(left);
    }
    assert(text::joined(left, "\\"@) =~= b + rest);
    assert(p.take(8) =~= path.take(8));
    pair_stays(a, '\\', b, rest, true);
    assert(p.skip(8) =~= a.push('\\') + (b + rest));
    let n = 8 + f + 1 + b.len();
    assert(prefix(p) == (PrefixKind::Verbatim, n as nat));
    assert(p.skip(n as int) =~= rest);
    assert forall|i: int| 0 <= i < tail.len() implies plain_name(#[trigger] tail[i], true) && tail[i]
        != ".."@ by {
        assert(tail[i] == left[i + 1]);
    }
    if left.len() > 1 {
        rooted_names_are_found(tail, true);
    } else {
        assert(tail =~= Seq::<Seq<char>>::empty());
        assert(names(rest, true) =~= tail);
    }
    assert(parts(p).names == tail);
    assert(parts(p).written() =~= p);
}

/// A path that was normalized stays as it is when it is normalized again, and none of its names
/// leads to the parent. If none of the names of the path has a drive in front of it, what comes out
/// is absolute if the path was, and it is on the same drive or share. Left out are paths that are
/// moved to a drive in front of one of their names, and of which something is left there that
/// would not stay.
pub proof fn normal_paths_stay(path: Seq<char>)
    requires
        !hides_a_drive(path),
    ensures
        normalized(path) matches Some(p) ==> {
            &&& normalized(p) == Some(p)
            &&& !parts(p).names.contains(".."@)
            &&& undriven(parts(path).names) ==> {
                &&& parts(path).absolute() ==> parts(p).absolute()
                &&& parts(path).kind == PrefixKind::Drive || parts(path).kind == PrefixKind::Share
                    ==> parts(p).kind == parts(path).kind && parts(p).prefix == parts(path).prefix
            }
        },
{
    let whole = parts(path);
    let verbatim = whole.kind == PrefixKind::Verbatim;
    names_are_plain(path.skip(prefix(path).1 as int), verbatim);
    resolved_facts(whole.front(), whole.names, verbatim);
    if let Some(left) = whole.resolve() {
        let p = left.written();
        if undriven(whole.names) {
            let v = PartsView { names: left.names, ..whole };
            assert(v =~= left);
            match whole.kind {
                PrefixKind::Relative => normal_relative_path_stays(path, left.names),
                PrefixKind::Drive => {
                    assert(whole.prefix =~= path.take(2));
                    assert(begins_with_drive(whole.prefix));
                    normal_drive_path_stays(left);
                },
                PrefixKind::Share => normal_share_path_stays(path, left.names),
                PrefixKind::Verbatim => normal_verbatim_path_stays(path, left.names),
            }
        } else {
            normal_drive_path_stays(left);
        }
        let again = parts(p);
        settled_names_are_left(again.front(), again.names, again.kind == PrefixKind::Verbatim);
        assert((PartsView { names: again.names, ..again.front() }) =~= again);
        assert(again.written() == p);
        if again.names.contains(".."@) {
            let i = choose|i: int| 0 <= i < again.names.len() && again.names[i] == ".."@;
            assert(again.names[i] != ".."@);
        }
    }
}

} // verus!

//! Paths, held as text: those of POSIX systems and those of Windows.
use vstd::prelude::*;

use crate::text;

verus! {

/// The kinds of prefix that a path of Windows may begin with.
#[derive(Debug, PartialEq, Eq, Clone, Copy, Structural)]
pub enum PrefixKind {
    /// `\\?\name`
    Verbatim,
    /// `\\?\UNC\server\share`
    VerbatimUnc,
    /// `\\?\C:`
    VerbatimDisk,
    /// `\\.\name`
    Device,
    /// `\\server\share`
    Unc,
    /// `C:`
    Disk,
}

/// A prefix of a path of Windows, over characters: its kind and the one or two names in it. The
/// name of a disk is its letter in uppercase.
pub struct Prefix {
    pub kind: PrefixKind,
    pub first: Seq<char>,
    pub second: Seq<char>,
}

/// The number of characters of a name and of the separator before it, where it is there.
pub open spec fn separated_len(name: Seq<char>) -> nat {
    if name.len() > 0 {
        1 + name.len()
    } else {
        0
    }
}

impl Prefix {
    /// Whether what follows the prefix is taken as it stands.
    pub open spec fn is_verbatim(self) -> bool {
        self.kind == PrefixKind::Verbatim || self.kind == PrefixKind::VerbatimUnc || self.kind
            == PrefixKind::VerbatimDisk
    }

    /// The number of characters of the prefix.
    pub open spec fn size(self) -> nat {
        match self.kind {
            PrefixKind::Verbatim | PrefixKind::Device => 4 + self.first.len(),
            PrefixKind::VerbatimUnc => 8 + self.first.len() + separated_len(self.second),
            PrefixKind::VerbatimDisk => 6,
            PrefixKind::Unc => 2 + self.first.len() + separated_len(self.second),
            PrefixKind::Disk => 2,
        }
    }
}

/// One component of a path, over characters.
pub enum Part {
    /// The prefix of a path of Windows.
    Prefix(Prefix),
    /// The root directory.
    Root,
    /// A leading `.` of a relative path.
    Here,
    /// A `..`.
    Up,
    /// The name of a file or a directory.
    Name(Seq<char>),
}

/// Whether a character separates the components of a path.
pub open spec fn is_sep(c: char, on_windows: bool) -> bool {
    c == '/' || (on_windows && c == '\\')
}

/// Whether a character separates the components of a path; behind a verbatim prefix only the
/// backslash does.
pub open spec fn splits(c: char, on_windows: bool, verbatim: bool) -> bool {
    if verbatim {
        c == '\\'
    } else {
        is_sep(c, on_windows)
    }
}

/// The place of the first separator from `i` on in a path of Windows, or the end.
pub open spec fn next_sep(s: Seq<char>, i: int, verbatim: bool) -> int
    decreases s.len() - i,
{
    if i >= s.len() || splits(s[i], true, verbatim) {
        i
    } else {
        next_sep(s, i + 1, verbatim)
    }
}

/// What stands from `i` to the next separator.
pub open spec fn component_at(s: Seq<char>, i: int, verbatim: bool) -> Seq<char> {
    s.subrange(i, next_sep(s, i, verbatim))
}

/// The place behind the next separator from `i` on, or the end.
pub open spec fn behind_sep(s: Seq<char>, i: int, verbatim: bool) -> int {
    if next_sep(s, i, verbatim) < s.len() {
        next_sep(s, i, verbatim) + 1
    } else {
        s.len() as int
    }
}

/// Whether a disk is named by a letter and a colon at `i`.
pub open spec fn drive_at(s: Seq<char>, i: int) -> bool {
    i + 1 < s.len() && (('a' <= s[i] && s[i] <= 'z') || ('A' <= s[i] && s[i] <= 'Z')) && s[i + 1]
        == ':'
}

/// A letter in uppercase.
pub open spec fn upper_letter(c: char) -> char {
    if 'a' <= c && c <= 'z' {
        ((c as u8) - 32) as char
    } else {
        c
    }
}

/// The prefix of a path that begins with `\\?\`.
pub open spec fn verbatim_prefix(s: Seq<char>) -> Prefix {
    if s.len() >= 8 && s[4] == 'U' && s[5] == 'N' && s[6] == 'C' && is_sep(s[7], true) {
        Prefix {
            kind: PrefixKind::VerbatimUnc,
            first: component_at(s, 8, true),
            second: component_at(s, behind_sep(s, 8, true), true),
        }
    } else if drive_at(s, 4) && (s.len() == 6 || is_sep(s[6], true)) {
        Prefix {
            kind: PrefixKind::VerbatimDisk,
            first: seq![upper_letter(s[4])],
            second: Seq::empty(),
        }
    } else {
        Prefix {
            kind: PrefixKind::Verbatim,
            first: component_at(s, 4, true),
            second: Seq::empty(),
        }
    }
}

/// The prefix of a path of Windows.
pub open spec fn windows_prefix(s: Seq<char>) -> Option<Prefix> {
    if s.len() >= 2 && is_sep(s[0], true) && is_sep(s[1], true) {
        if s.len() >= 4 && s[0] == '\\' && s[1] == '\\' && s[2] == '?' && s[3] == '\\' {
            Some(verbatim_prefix(s))
        } else if s.len() >= 4 && s[2] == '.' && is_sep(s[3], true) {
            Some(
                Prefix {
                    kind: PrefixKind::Device,
                    first: component_at(s, 4, false),
                    second: Seq::empty(),
                },
            )
        } else {
            let first = component_at(s, 2, false);
            let second = component_at(s, behind_sep(s, 2, false), false);
            if first.len() > 0 && second.len() > 0 {
                Some(Prefix { kind: PrefixKind::Unc, first, second })
            } else {
                None
            }
        }
    } else if drive_at(s, 0) {
        Some(
            Prefix {
                kind: PrefixKind::Disk,
                first: seq![upper_letter(s[0])],
                second: Seq::empty(),
            },
        )
    } else {
        None
    }
}

/// The prefix of a path: only paths of Windows have one.
pub open spec fn prefix(path: Seq<char>, on_windows: bool) -> Option<Prefix> {
    if on_windows {
        windows_prefix(path)
    } else {
        None
    }
}

/// The number of characters of the prefix of a path.
pub open spec fn prefix_size(path: Seq<char>, on_windows: bool) -> nat {
    match prefix(path, on_windows) {
        Some(p) => p.size(),
        None => 0,
    }
}

/// Whether a path has a verbatim prefix.
pub open spec fn is_verbatim(path: Seq<char>, on_windows: bool) -> bool {
    prefix(path, on_windows) matches Some(p) && p.is_verbatim()
}

/// Whether a separator stands behind the prefix of a path.
pub open spec fn root_is_written(path: Seq<char>, on_windows: bool) -> bool {
    let rest = path.skip(prefix_size(path, on_windows) as int);
    rest.len() > 0 && is_sep(rest[0], on_windows)
}

/// Whether a path begins at a root: a separator stands behind its prefix, or its prefix is none of
/// a disk.
pub open spec fn has_root(path: Seq<char>, on_windows: bool) -> bool {
    root_is_written(path, on_windows) || (prefix(path, on_windows) matches Some(p) && p.kind
        != PrefixKind::Disk)
}

/// Whether a path means the same file from wherever it is looked at: it begins at a root and, on
/// Windows, has a prefix.
pub open spec fn absolute(path: Seq<char>, on_windows: bool) -> bool {
    has_root(path, on_windows) && (on_windows ==> prefix(path, on_windows) is Some)
}

/// What stands behind the prefix and the root of a path.
pub open spec fn body(path: Seq<char>, on_windows: bool) -> Seq<char> {
    let rest = path.skip(prefix_size(path, on_windows) as int);
    if root_is_written(path, on_windows) {
        rest.skip(1)
    } else {
        rest
    }
}

/// What stands between the separators.
pub open spec fn pieces(s: Seq<char>, on_windows: bool, verbatim: bool) -> Seq<Seq<char>>
    decreases s.len(),
{
    if s.len() == 0 {
        seq![Seq::empty()]
    } else {
        let before = pieces(s.drop_last(), on_windows, verbatim);
        if splits(s.last(), on_windows, verbatim) {
            before.push(Seq::empty())
        } else {
            before.drop_last().push(before.last().push(s.last()))
        }
    }
}

/// The components that a piece of a path contributes; `keep_dot` tells whether a `.` is one.
pub open spec fn piece_parts(piece: Seq<char>, keep_dot: bool) -> Seq<Part> {
    if piece.len() == 0 {
        Seq::empty()
    } else if piece == "."@ {
        if keep_dot {
            seq![Part::Here]
        } else {
            Seq::empty()
        }
    } else if piece == ".."@ {
        seq![Part::Up]
    } else {
        seq![Part::Name(piece)]
    }
}

/// The components of the pieces, in order. A `.` is one only where it leads a path that has neither
/// prefix nor root, or behind a verbatim prefix.
pub open spec fn parts_of_pieces(all: Seq<Seq<char>>, leading: bool, verbatim: bool) -> Seq<Part>
    decreases all.len(),
{
    if all.len() == 0 {
        Seq::empty()
    } else {
        parts_of_pieces(all.drop_last(), leading, verbatim) + piece_parts(
            all.last(),
            verbatim || (leading && all.len() == 1),
        )
    }
}

/// The prefix and the root of a path, as components.
pub open spec fn head_parts(path: Seq<char>, on_windows: bool) -> Seq<Part> {
    let root = if root_is_written(path, on_windows) || (has_root(path, on_windows) && !is_verbatim(
        path,
        on_windows,
    )) {
        seq![Part::Root]
    } else {
        Seq::empty()
    };
    match prefix(path, on_windows) {
        Some(p) => seq![Part::Prefix(p)] + root,
        None => root,
    }
}

/// The components of a path: repeated and trailing separators count for nothing, nor does a `.`
/// that is not first.
pub open spec fn parts(path: Seq<char>, on_windows: bool) -> Seq<Part> {
    let head = head_parts(path, on_windows);
    let verbatim = is_verbatim(path, on_windows);
    head + parts_of_pieces(
        pieces(body(path, on_windows), on_windows, verbatim),
        head.len() == 0,
        verbatim,
    )
}

/// The last component of a path, where it is a name.
pub open spec fn last_name(path: Seq<char>, on_windows: bool) -> Option<Seq<char>> {
    let all = parts(path, on_windows);
    if all.len() > 0 {
        match all.last() {
            Part::Name(name) => Some(name),
            _ => None,
        }
    } else {
        None
    }
}

/// The place of the last dot, or -1.
pub open spec fn last_dot(name: Seq<char>) -> int
    decreases name.len(),
{
    if name.len() == 0 {
        -1
    } else if name.last() == '.' {
        name.len() - 1
    } else {
        last_dot(name.drop_last())
    }
}

/// A file's name without its extension.
pub open spec fn stem(name: Seq<char>) -> Seq<char> {
    if last_dot(name) <= 0 {
        name
    } else {
        name.take(last_dot(name))
    }
}

/// The extension of a file's name: what follows the last dot, unless the dot comes first.
pub open spec fn name_extension(name: Seq<char>) -> Option<Seq<char>> {
    if last_dot(name) <= 0 {
        None
    } else {
        Some(name.skip(last_dot(name) + 1))
    }
}

/// The last component of a path without its extension.
pub open spec fn last_stem(path: Seq<char>, on_windows: bool) -> Option<Seq<char>> {
    match last_name(path, on_windows) {
        Some(name) => Some(stem(name)),
        None => None,
    }
}

/// The extension of a path's last component.
pub open spec fn last_extension(path: Seq<char>, on_windows: bool) -> Option<Seq<char>> {
    match last_name(path, on_windows) {
        Some(name) => name_extension(name),
        None => None,
    }
}

/// Components that are followed one by one, beginning at a directory: a root leads back behind the
/// prefix, `..` leads out of a directory, and `.` leads nowhere.
pub open spec fn followed(base: Seq<Part>, tail: Seq<Part>) -> Seq<Part>
    decreases tail.len(),
{
    if tail.len() == 0 {
        base
    } else {
        let so_far = followed(base, tail.drop_last());
        match tail.last() {
            Part::Root => if so_far.len() > 0 {
                seq![so_far[0], Part::Root]
            } else {
                seq![Part::Root]
            },
            Part::Here => so_far,
            Part::Up => if so_far.len() > 0 && so_far.last() is Name {
                so_far.drop_last()
            } else {
                so_far
            },
            _ => so_far.push(tail.last()),
        }
    }
}

/// How a component is written, where `raw_prefix` is the text of a prefix.
pub open spec fn part_text(part: Part, raw_prefix: Seq<char>) -> Seq<char> {
    match part {
        Part::Prefix(_) => raw_prefix,
        Part::Root => seq!['\\'],
        Part::Here => "."@,
        Part::Up => ".."@,
        Part::Name(name) => name,
    }
}

/// Whether a backslash is written between two components.
pub open spec fn sep_between(a: Part, b: Part) -> bool {
    a !is Root && b !is Root
}

/// Components behind a verbatim prefix, written one after the other.
pub open spec fn written(parts: Seq<Part>, raw_prefix: Seq<char>) -> Seq<char>
    decreases parts.len(),
{
    if parts.len() == 0 {
        Seq::empty()
    } else {
        let before = written(parts.drop_last(), raw_prefix);
        let sep = if parts.len() > 1 && sep_between(parts[parts.len() - 2], parts.last()) {
            seq!['\\']
        } else {
            Seq::empty()
        };
        before + sep + part_text(parts.last(), raw_prefix)
    }
}

/// Whether a separator is written behind `base` before a name is added: not where one stands there,
/// nor behind nothing, nor behind the bare name of a disk.
pub open spec fn needs_sep(base: Seq<char>, on_windows: bool) -> bool {
    &&& base.len() > 0
    &&& !is_sep(base.last(), on_windows)
    &&& !(prefix(base, on_windows) matches Some(p) && p.kind == PrefixKind::Disk && base.len() == 2)
}

/// `tail` seen from the directory `base`. An absolute `tail`, or one with a prefix, stands for
/// itself; from behind a verbatim prefix it is followed component by component; one that has a root
/// but no prefix keeps the prefix of `base`; any other is added to `base`.
pub open spec fn joined_path(base: Seq<char>, tail: Seq<char>, on_windows: bool) -> Seq<char> {
    if absolute(tail, on_windows) || prefix(tail, on_windows) is Some {
        tail
    } else if is_verbatim(base, on_windows) && tail.len() > 0 {
        written(
            followed(parts(base, on_windows), parts(tail, on_windows)),
            base.take(prefix_size(base, on_windows) as int),
        )
    } else if has_root(tail, on_windows) {
        base.take(prefix_size(base, on_windows) as int) + tail
    } else if needs_sep(base, on_windows) {
        base.push(
            if on_windows {
                '\\'
            } else {
                '/'
            },
        ) + tail
    } else {
        base + tail
    }
}

/// The characters of an optional string.
pub open spec fn optional_text(s: Option<String>) -> Option<Seq<char>> {
    match s {
        Some(t) => Some(t@),
        None => None,
    }
}

/// A prefix of a path of Windows.
#[derive(Debug)]
pub struct PathPrefix {
    pub kind: PrefixKind,
    pub first: String,
    pub second: String,
}

impl PathPrefix {
    pub open spec fn model(self) -> Prefix {
        Prefix { kind: self.kind, first: self.first@, second: self.second@ }
    }
}

/// One component of a path.
#[derive(Debug)]
pub enum PathPart {
    Prefix(PathPrefix),
    Root,
    Here,
    Up,
    Name(String),
}

impl PathPart {
    pub open spec fn model(self) -> Part {
        match self {
            PathPart::Prefix(p) => Part::Prefix(p.model()),
            PathPart::Root => Part::Root,
            PathPart::Here => Part::Here,
            PathPart::Up => Part::Up,
            PathPart::Name(name) => Part::Name(name@),
        }
    }
}

/// The models of a list of components.
pub open spec fn models(list: Seq<PathPart>) -> Seq<Part> {
    Seq::new(list.len(), |i: int| list[i].model())
}

/// What is known of the prefix and the root of a path.
struct Head {
    prefix: Option<PathPrefix>,
    /// The number of characters of the prefix.
    size: usize,
    root_is_written: bool,
}

spec fn is_head(head: Head, path: Seq<char>, on_windows: bool) -> bool {
    &&& match (head.prefix, prefix(path, on_windows)) {
        (Some(p), Some(q)) => p.model() == q,
        (None, None) => true,
        _ => false,
    }
    &&& head.size == prefix_size(path, on_windows)
    &&& head.size <= path.len()
    &&& head.root_is_written ==> head.size < path.len()
    &&& head.root_is_written == root_is_written(path, on_windows)
}

fn is_separator(c: char, on_windows: bool) -> (r: bool)
    ensures
        r == is_sep(c, on_windows),
{
    c == '/' || (on_windows && c == '\\')
}

proof fn lemma_next_sep(s: Seq<char>, i: int, verbatim: bool)
    requires
        0 <= i <= s.len(),
    ensures
        i <= next_sep(s, i, verbatim) <= s.len(),
    decreases s.len() - i,
{
    if i < s.len() && !splits(s[i], true, verbatim) {
        lemma_next_sep(s, i + 1, verbatim);
    }
}

/// The place of the next separator.
fn find_sep(chars: &Vec<char>, from: usize, verbatim: bool) -> (r: usize)
    requires
        from <= chars@.len(),
    ensures
        r == next_sep(chars@, from as int, verbatim),
        from <= r <= chars@.len(),
{
    let mut i: usize = from;
    while i < chars.len()
        invariant
            from <= i <= chars@.len(),
            next_sep(chars@, from as int, verbatim) == next_sep(chars@, i as int, verbatim),
        decreases chars@.len() - i,
    {
        if chars[i] == '\\' || (!verbatim && chars[i] == '/') {
            return i;
        }
        i += 1;
    }
    i
}

/// The name from `from` on, and the place behind the separator that follows it.
fn next_name(chars: &Vec<char>, from: usize, verbatim: bool) -> (r: (String, usize, usize))
    requires
        from <= chars@.len(),
    ensures
        r.0@ == component_at(chars@, from as int, verbatim),
        r.1 == r.0@.len(),
        r.2 == behind_sep(chars@, from as int, verbatim),
        r.2 <= chars@.len(),
        from + r.1 == next_sep(chars@, from as int, verbatim),
        from + r.1 <= chars@.len(),
{
    let end = find_sep(chars, from, verbatim);
    let behind: usize = if end < chars.len() {
        end + 1
    } else {
        end
    };
    (text::from_chars(chars, from, end), end - from, behind)
}

/// The name of a disk: its letter in uppercase.
fn drive_name(c: char) -> (r: String)
    requires
        ('a' <= c && c <= 'z') || ('A' <= c && c <= 'Z'),
    ensures
        r@ == seq![upper_letter(c)],
{
    let upper: char = if 'a' <= c && c <= 'z' {
        ((c as u8) - 32) as char
    } else {
        c
    };
    let mut name = String::new();
    name.push(upper);
    assert(name@ =~= seq![upper_letter(c)]);
    name
}

fn is_drive(chars: &Vec<char>, i: usize) -> (r: bool)
    requires
        i <= 4,
    ensures
        r == drive_at(chars@, i as int),
{
    i + 1 < chars.len() && (('a' <= chars[i] && chars[i] <= 'z') || ('A' <= chars[i] && chars[i]
        <= 'Z')) && chars[i + 1] == ':'
}

/// The prefix of a path of Windows that begins with `\\?\`, and its size.
fn read_verbatim_prefix(chars: &Vec<char>) -> (r: (PathPrefix, usize))
    requires
        chars@.len() >= 4,
    ensures
        r.0.model() == verbatim_prefix(chars@),
        r.1 == verbatim_prefix(chars@).size(),
        r.1 <= chars@.len(),
{
    let n: usize = chars.len();
    if n >= 8 && chars[4] == 'U' && chars[5] == 'N' && chars[6] == 'C' && is_separator(
        chars[7],
        true,
    ) {
        let (first, first_len, behind) = next_name(chars, 8, true);
        let (second, second_len, _) = next_name(chars, behind, true);
        let more: usize = if second_len > 0 {
            1 + second_len
        } else {
            0
        };
        (PathPrefix { kind: PrefixKind::VerbatimUnc, first, second }, 8 + first_len + more)
    } else if is_drive(chars, 4) && (n == 6 || is_separator(chars[6], true)) {
        let first = drive_name(chars[4]);
        let second = String::new();
        assert(second@ =~= Seq::<char>::empty());
        (PathPrefix { kind: PrefixKind::VerbatimDisk, first, second }, 6)
    } else {
        let (first, first_len, _) = next_name(chars, 4, true);
        let second = String::new();
        assert(second@ =~= Seq::<char>::empty());
        (PathPrefix { kind: PrefixKind::Verbatim, first, second }, 4 + first_len)
    }
}

/// The prefix of a path of Windows, and its size.
fn read_prefix(chars: &Vec<char>) -> (r: Option<(PathPrefix, usize)>)
    ensures
        match (r, windows_prefix(chars@)) {
            (Some((p, size)), Some(q)) => p.model() == q && size == q.size() && size
                <= chars@.len(),
            (None, None) => true,
            _ => false,
        },
{
    let n: usize = chars.len();
    if n >= 2 && is_separator(chars[0], true) && is_separator(chars[1], true) {
        if n >= 4 && chars[0] == '\\' && chars[1] == '\\' && chars[2] == '?' && chars[3] == '\\' {
            Some(read_verbatim_prefix(chars))
        } else if n >= 4 && chars[2] == '.' && is_separator(chars[3], true) {
            let (first, first_len, _) = next_name(chars, 4, false);
            let second = String::new();
            assert(second@ =~= Seq::<char>::empty());
            Some((PathPrefix { kind: PrefixKind::Device, first, second }, 4 + first_len))
        } else {
            let (first, first_len, behind) = next_name(chars, 2, false);
            let (second, second_len, _) = next_name(chars, behind, false);
            if first_len > 0 && second_len > 0 {
                Some(
                    (
                        PathPrefix { kind: PrefixKind::Unc, first, second },
                        2 + first_len + 1 + second_len,
                    ),
                )
            } else {
                None
            }
        }
    } else if is_drive(chars, 0) {
        let first = drive_name(chars[0]);
        let second = String::new();
        assert(second@ =~= Seq::<char>::empty());
        Some((PathPrefix { kind: PrefixKind::Disk, first, second }, 2))
    } else {
        None
    }
}

/// The prefix and the root of a path.
fn read_head(chars: &Vec<char>, on_windows: bool) -> (r: Head)
    ensures
        is_head(r, chars@, on_windows),
        r.root_is_written ==> r.size < usize::MAX,
{
    let read = if on_windows {
        read_prefix(chars)
    } else {
        None
    };
    let (prefix, size): (Option<PathPrefix>, usize) = match read {
        Some((p, size)) => (Some(p), size),
        None => (None, 0),
    };
    let root_is_written = size < chars.len() && is_separator(chars[size], on_windows);
    Head { prefix, size, root_is_written }
}

/// Whether a prefix is a verbatim one.
fn verbatim_kind(kind: PrefixKind) -> (r: bool)
    ensures
        r == (kind == PrefixKind::Verbatim || kind == PrefixKind::VerbatimUnc || kind
            == PrefixKind::VerbatimDisk),
{
    kind == PrefixKind::Verbatim || kind == PrefixKind::VerbatimUnc || kind
        == PrefixKind::VerbatimDisk
}

impl Head {
    fn has_verbatim_prefix(&self) -> (r: bool)
        ensures
            r == (self.prefix matches Some(p) && p.model().is_verbatim()),
    {
        match &self.prefix {
            Some(p) => verbatim_kind(p.kind),
            None => false,
        }
    }

    /// Whether the prefix is there and none of a disk.
    fn has_implicit_root(&self) -> (r: bool)
        ensures
            r == (self.prefix matches Some(p) && p.kind != PrefixKind::Disk),
    {
        match &self.prefix {
            Some(p) => p.kind != PrefixKind::Disk,
            None => false,
        }
    }
}

proof fn lemma_pieces_nonempty(s: Seq<char>, on_windows: bool, verbatim: bool)
    ensures
        pieces(s, on_windows, verbatim).len() > 0,
    decreases s.len(),
{
    if s.len() > 0 {
        lemma_pieces_nonempty(s.drop_last(), on_windows, verbatim);
    }
}

/// What stands between the separators from `from` on.
fn split_pieces(chars: &Vec<char>, from: usize, on_windows: bool, verbatim: bool) -> (r: Vec<String>)
    requires
        from <= chars@.len(),
    ensures
        text::texts(r@) == pieces(chars@.skip(from as int), on_windows, verbatim),
{
    let ghost rest = chars@.skip(from as int);
    let mut done: Vec<String> = Vec::new();
    let mut current = String::new();
    let mut i: usize = from;
    assert(pieces(rest.take(0), on_windows, verbatim) =~= text::texts(done@).push(current@));
    while i < chars.len()
        invariant
            rest == chars@.skip(from as int),
            from <= i <= chars@.len(),
            pieces(rest.take(i - from), on_windows, verbatim) =~= text::texts(done@).push(current@),
        decreases chars@.len() - i,
    {
        let ghost so_far = pieces(rest.take(i - from), on_windows, verbatim);
        let ghost done_before = done@;
        proof {
            assert(rest.take(i - from + 1).drop_last() =~= rest.take(i - from));
            assert(rest.take(i - from + 1).last() == chars@[i as int]);
            assert(so_far.drop_last() =~= text::texts(done@));
            assert(so_far.last() == current@);
        }
        let c = chars[i];
        let at_sep = if verbatim {
            c == '\\'
        } else {
            is_separator(c, on_windows)
        };
        if at_sep {
            let ghost closed = current@;
            done.push(current);
            current = String::new();
            assert(text::texts(done@) =~= text::texts(done_before).push(closed));
        } else {
            current.push(c);
        }
        i += 1;
    }
    assert(rest.take(i - from) =~= rest);
    let ghost done_before = done@;
    let ghost closed = current@;
    done.push(current);
    assert(text::texts(done@) =~= text::texts(done_before).push(closed));
    done
}

/// The components of a path.
pub fn components(path: &str, on_windows: bool) -> (r: Vec<PathPart>)
    ensures
        models(r@) == parts(path@, on_windows),
{
    let chars = text::to_chars(path);
    let head = read_head(&chars, on_windows);
    let verbatim = head.has_verbatim_prefix();
    let implicit_root = head.has_implicit_root();
    let start: usize = if head.root_is_written {
        head.size + 1
    } else {
        head.size
    };
    let all = split_pieces(&chars, start, on_windows, verbatim);
    let ghost texts = text::texts(all@);
    let ghost heads = head_parts(path@, on_windows);
    proof {
        if head.root_is_written {
            assert(chars@.skip(head.size as int).skip(1) =~= chars@.skip(head.size + 1));
        }
        assert(chars@.skip(start as int) =~= body(path@, on_windows));
    }
    let mut out: Vec<PathPart> = Vec::new();
    let mut leading = true;
    if let Some(p) = head.prefix {
        out.push(PathPart::Prefix(p));
        leading = false;
    }
    if head.root_is_written || (implicit_root && !verbatim) {
        out.push(PathPart::Root);
        leading = false;
    }
    proof {
        assert(models(out@) =~= heads);
        assert(leading == (heads.len() == 0));
        assert(models(out@) =~= heads + parts_of_pieces(texts.take(0), leading, verbatim));
    }
    let mut i: usize = 0;
    while i < all.len()
        invariant
            texts == text::texts(all@),
            i <= all@.len(),
            models(out@) =~= heads + parts_of_pieces(texts.take(i as int), leading, verbatim),
        decreases all@.len() - i,
    {
        let piece = all[i].as_str();
        let ghost before = out@;
        proof {
            assert(texts.take(i + 1).drop_last() =~= texts.take(i as int));
            assert(texts.take(i + 1).last() == piece@);
        }
        if piece.is_empty() {
        } else if text::same(piece, ".") {
            if verbatim || (leading && i == 0) {
                out.push(PathPart::Here);
                assert(models(out@) =~= models(before).push(Part::Here));
            }
        } else if text::same(piece, "..") {
            out.push(PathPart::Up);
            assert(models(out@) =~= models(before).push(Part::Up));
        } else {
            out.push(PathPart::Name(all[i].clone()));
            assert(models(out@) =~= models(before).push(Part::Name(piece@)));
        }
        i += 1;
    }
    assert(texts.take(i as int) =~= texts);
    out
}

/// The last component of a path, where it is a name.
pub fn file_name(path: &str, on_windows: bool) -> (r: Option<String>)
    ensures
        optional_text(r) == last_name(path@, on_windows),
{
    let mut all = components(path, on_windows);
    assert(all@.len() > 0 ==> models(all@).last() == all@.last().model());
    match all.pop() {
        Some(PathPart::Name(name)) => Some(name),
        _ => None,
    }
}

/// The place of the last dot, where there is one.
fn find_last_dot(chars: &Vec<char>) -> (r: Option<usize>)
    ensures
        match r {
            Some(i) => i == last_dot(chars@) && i < chars@.len(),
            None => last_dot(chars@) == -1,
        },
{
    let mut n: usize = chars.len();
    assert(chars@.take(n as int) =~= chars@);
    while n > 0
        invariant
            n <= chars@.len(),
            last_dot(chars@) == last_dot(chars@.take(n as int)),
        decreases n,
    {
        assert(chars@.take(n as int).last() == chars@[n - 1]);
        if chars[n - 1] == '.' {
            return Some(n - 1);
        }
        assert(chars@.take(n as int).drop_last() =~= chars@.take(n - 1));
        n -= 1;
    }
    None
}

/// The last component of a path without its extension.
pub fn file_stem(path: &str, on_windows: bool) -> (r: Option<String>)
    ensures
        optional_text(r) == last_stem(path@, on_windows),
{
    match file_name(path, on_windows) {
        Some(name) => {
            let chars = text::to_chars(name.as_str());
            match find_last_dot(&chars) {
                Some(dot) => {
                    if dot == 0 {
                        Some(name)
                    } else {
                        assert(chars@.take(dot as int) =~= chars@.subrange(0, dot as int));
                        Some(text::from_chars(&chars, 0, dot))
                    }
                },
                None => Some(name),
            }
        },
        None => None,
    }
}

/// The extension of a path's last component.
pub fn extension(path: &str, on_windows: bool) -> (r: Option<String>)
    ensures
        optional_text(r) == last_extension(path@, on_windows),
{
    match file_name(path, on_windows) {
        Some(name) => {
            let chars = text::to_chars(name.as_str());
            match find_last_dot(&chars) {
                Some(dot) => {
                    if dot == 0 {
                        None
                    } else {
                        assert(chars@.skip(dot + 1) =~= chars@.subrange(
                            dot + 1,
                            chars@.len() as int,
                        ));
                        let n: usize = chars.len();
                        Some(text::from_chars(&chars, dot + 1, n))
                    }
                },
                None => None,
            }
        },
        None => None,
    }
}

/// Whether two components are the same.
fn same_part(a: &PathPart, b: &PathPart) -> (r: bool)
    ensures
        r == (a.model() == b.model()),
{
    match (a, b) {
        (PathPart::Prefix(p), PathPart::Prefix(q)) => p.kind == q.kind && text::same(
            p.first.as_str(),
            q.first.as_str(),
        ) && text::same(p.second.as_str(), q.second.as_str()),
        (PathPart::Root, PathPart::Root) => true,
        (PathPart::Here, PathPart::Here) => true,
        (PathPart::Up, PathPart::Up) => true,
        (PathPart::Name(p), PathPart::Name(q)) => text::same(p.as_str(), q.as_str()),
        _ => false,
    }
}

/// Whether two texts name the same path.
pub fn same_path(a: &str, b: &str, on_windows: bool) -> (r: bool)
    ensures
        r == (parts(a@, on_windows) == parts(b@, on_windows)),
{
    let x = components(a, on_windows);
    let y = components(b, on_windows);
    if x.len() != y.len() {
        assert(models(x@).len() != models(y@).len());
        return false;
    }
    let mut i: usize = 0;
    while i < x.len()
        invariant
            models(x@) == parts(a@, on_windows),
            models(y@) == parts(b@, on_windows),
            x@.len() == y@.len(),
            i <= x@.len(),
            forall|j: int| 0 <= j < i ==> x@[j].model() == y@[j].model(),
        decreases x@.len() - i,
    {
        assert(models(x@)[i as int] == x@[i as int].model());
        assert(models(y@)[i as int] == y@[i as int].model());
        if !same_part(&x[i], &y[i]) {
            return false;
        }
        i += 1;
    }
    assert(models(x@) =~= models(y@));
    true
}

/// Whether a path means the same file from wherever it is looked at.
pub fn is_absolute(path: &str, on_windows: bool) -> (r: bool)
    ensures
        r == absolute(path@, on_windows),
{
    let chars = text::to_chars(path);
    let head = read_head(&chars, on_windows);
    (head.root_is_written || head.has_implicit_root()) && (!on_windows || head.prefix.is_some())
}

/// Follows components one by one, beginning at a directory.
fn follow(base: Vec<PathPart>, tail: Vec<PathPart>) -> (r: Vec<PathPart>)
    ensures
        models(r@) == followed(models(base@), models(tail@)),
{
    let ghost start = models(base@);
    let ghost all = tail@;
    let ghost steps = models(tail@);
    let mut out = base;
    let mut rest = tail;
    let n: usize = rest.len();
    let mut i: usize = 0;
    assert(steps.take(0) =~= Seq::<Part>::empty());
    while i < n
        invariant
            i <= n == all.len(),
            steps == models(all),
            rest@ == all.skip(i as int),
            models(out@) == followed(start, steps.take(i as int)),
        decreases n - i,
    {
        let step = rest.remove(0);
        let ghost before = out@;
        proof {
            assert(step == all[i as int]);
            assert(steps.take(i + 1).drop_last() =~= steps.take(i as int));
            assert(steps.take(i + 1).last() == step.model());
            assert(before.len() > 0 ==> models(before).last() == before.last().model());
        }
        match step {
            PathPart::Root => {
                out.truncate(1);
                out.push(PathPart::Root);
                assert(models(out@) =~= if before.len() > 0 {
                    seq![models(before)[0], Part::Root]
                } else {
                    seq![Part::Root]
                });
            },
            PathPart::Here => {},
            PathPart::Up => {
                let len: usize = out.len();
                let in_directory = len > 0 && match &out[len - 1] {
                    PathPart::Name(_) => true,
                    _ => false,
                };
                if in_directory {
                    out.pop();
                    assert(models(out@) =~= models(before).drop_last());
                }
            },
            PathPart::Prefix(p) => {
                out.push(PathPart::Prefix(p));
                assert(models(out@) =~= models(before).push(step.model()));
            },
            PathPart::Name(name) => {
                out.push(PathPart::Name(name));
                assert(models(out@) =~= models(before).push(step.model()));
            },
        }
        assert(rest@ =~= all.skip(i + 1));
        i += 1;
    }
    assert(steps.take(i as int) =~= steps);
    out
}

/// Writes components one after the other.
fn write_parts(parts: &Vec<PathPart>, raw_prefix: &str) -> (r: String)
    ensures
        r@ == written(models(parts@), raw_prefix@),
{
    let ghost all = models(parts@);
    let mut out = String::new();
    let mut i: usize = 0;
    assert(all.take(0) =~= Seq::<Part>::empty());
    assert(out@ =~= written(all.take(0), raw_prefix@));
    while i < parts.len()
        invariant
            all == models(parts@),
            i <= parts@.len(),
            out@ == written(all.take(i as int), raw_prefix@),
        decreases parts@.len() - i,
    {
        let ghost before = out@;
        proof {
            assert(all.take(i + 1).drop_last() =~= all.take(i as int));
            assert(all.take(i + 1).last() == parts@[i as int].model());
            if i > 0 {
                assert(all.take(i + 1)[i - 1] == parts@[i - 1].model());
            }
        }
        let between = i > 0 && match &parts[i - 1] {
            PathPart::Root => false,
            _ => match &parts[i] {
                PathPart::Root => false,
                _ => true,
            },
        };
        if between {
            out.push('\\');
        }
        let ghost with_sep = out@;
        match &parts[i] {
            PathPart::Prefix(_) => out.append(raw_prefix),
            PathPart::Root => out.push('\\'),
            PathPart::Here => out.append("."),
            PathPart::Up => out.append(".."),
            PathPart::Name(name) => out.append(name.as_str()),
        }
        proof {
            let sep = if between {
                seq!['\\']
            } else {
                Seq::<char>::empty()
            };
            assert(with_sep =~= before + sep);
            assert(out@ =~= with_sep + part_text(parts@[i as int].model(), raw_prefix@));
        }
        i += 1;
    }
    assert(all.take(i as int) =~= all);
    out
}

/// `tail` seen from the directory `base`.
pub fn join(base: &str, tail: &str, on_windows: bool) -> (r: String)
    ensures
        r@ == joined_path(base@, tail@, on_windows),
{
    let tail_chars = text::to_chars(tail);
    let tail_head = read_head(&tail_chars, on_windows);
    if is_absolute(tail, on_windows) || tail_head.prefix.is_some() {
        return tail.to_owned();
    }
    let chars = text::to_chars(base);
    let n: usize = chars.len();
    let head = read_head(&chars, on_windows);
    assert(chars@.subrange(0, head.size as int) =~= base@.take(head.size as int));
    if head.has_verbatim_prefix() && tail_chars.len() > 0 {
        let raw_prefix = text::from_chars(&chars, 0, head.size);
        let parts = follow(components(base, on_windows), components(tail, on_windows));
        return write_parts(&parts, raw_prefix.as_str());
    }
    if tail_head.root_is_written {
        let mut out = text::from_chars(&chars, 0, head.size);
        out.append(tail);
        return out;
    }
    let bare_disk = n == 2 && match &head.prefix {
        Some(p) => p.kind == PrefixKind::Disk,
        None => false,
    };
    let mut out = base.to_owned();
    if n > 0 && !is_separator(chars[n - 1], on_windows) && !bare_disk {
        if on_windows {
            out.push('\\');
        } else {
            out.push('/');
        }
    }
    out.append(tail);
    out
}

/// A name is never longer than the path it ends, and a stem never longer than its name.
pub proof fn lemma_stem_is_shorter(path: Seq<char>, on_windows: bool)
    ensures
        last_stem(path, on_windows) matches Some(s) ==> s.len() <= path.len(),
        last_stem(path, on_windows) matches Some(s) ==> s.len() == path.len() ==> s == path,
{
    let verbatim = is_verbatim(path, on_windows);
    let rest = body(path, on_windows);
    let all = pieces(rest, on_windows, verbatim);
    let head = head_parts(path, on_windows);
    lemma_parts_come_from_pieces(all, head.len() == 0, verbatim);
    lemma_pieces_fit(rest, on_windows, verbatim);
    lemma_prefix_fits(path, on_windows);
    if let Some(name) = last_name(path, on_windows) {
        lemma_last_dot_range(name);
        let names = parts_of_pieces(all, head.len() == 0, verbatim);
        assert(parts(path, on_windows).last() == Part::Name(name));
        assert(names.len() > 0);
        assert(names.last() == Part::Name(name));
        let j = choose|j: int| 0 <= j < all.len() && #[trigger] all[j] == name;
        assert(all[j].len() <= rest.len());
        if name.len() == path.len() {
            assert(rest =~= path);
        }
    }
}

/// The prefix of a path is no longer than the path.
proof fn lemma_prefix_fits(path: Seq<char>, on_windows: bool)
    ensures
        prefix_size(path, on_windows) <= path.len(),
{
    if on_windows && path.len() >= 2 {
        lemma_next_sep(path, 2, false);
        lemma_next_sep(path, behind_sep(path, 2, false), false);
        if path.len() >= 4 {
            lemma_next_sep(path, 4, false);
            lemma_next_sep(path, 4, true);
        }
        if path.len() >= 8 {
            lemma_next_sep(path, 8, true);
            lemma_next_sep(path, behind_sep(path, 8, true), true);
        }
    }
}

proof fn lemma_last_dot_range(name: Seq<char>)
    ensures
        -1 <= last_dot(name) < name.len() || last_dot(name) == -1,
    decreases name.len(),
{
    if name.len() > 0 {
        lemma_last_dot_range(name.drop_last());
    }
}

/// Every name among the components is one of the pieces.
proof fn lemma_parts_come_from_pieces(all: Seq<Seq<char>>, leading: bool, verbatim: bool)
    ensures
        forall|i: int|
            0 <= i < parts_of_pieces(all, leading, verbatim).len() ==> (
            #[trigger] parts_of_pieces(all, leading, verbatim)[i] matches Part::Name(n)
                ==> all.contains(n)),
    decreases all.len(),
{
    if all.len() > 0 {
        lemma_parts_come_from_pieces(all.drop_last(), leading, verbatim);
        let before = parts_of_pieces(all.drop_last(), leading, verbatim);
        let now = parts_of_pieces(all, leading, verbatim);
        assert forall|i: int| 0 <= i < now.len() implies (#[trigger] now[i] matches Part::Name(n)
            ==> all.contains(n)) by {
            if let Part::Name(n) = now[i] {
                if i < before.len() {
                    assert(now[i] == before[i]);
                    let j = choose|j: int| 0 <= j < all.drop_last().len() && all.drop_last()[j] == n;
                    assert(all[j] == n);
                } else {
                    assert(n == all.last());
                    assert(all[all.len() - 1] == n);
                }
            }
        }
    }
}

/// A piece is at most as long as the path; one of the same length is the path.
proof fn lemma_pieces_fit(path: Seq<char>, on_windows: bool, verbatim: bool)
    ensures
        forall|i: int|
            0 <= i < pieces(path, on_windows, verbatim).len() ==> {
                let piece = #[trigger] pieces(path, on_windows, verbatim)[i];
                piece.len() <= path.len() && (piece.len() == path.len() ==> piece == path)
            },
    decreases path.len(),
{
    if path.len() > 0 {
        lemma_pieces_fit(path.drop_last(), on_windows, verbatim);
        lemma_pieces_nonempty(path.drop_last(), on_windows, verbatim);
        let before = pieces(path.drop_last(), on_windows, verbatim);
        let now = pieces(path, on_windows, verbatim);
        assert forall|i: int| 0 <= i < now.len() implies (#[trigger] now[i]).len() <= path.len() && (
        now[i].len() == path.len() ==> now[i] == path) by {
            if splits(path.last(), on_windows, verbatim) {
                if i < before.len() {
                    assert(now[i] == before[i]);
                }
            } else if i < before.len() - 1 {
                assert(now[i] == before[i]);
            } else {
                assert(now[i] == before[i].push(path.last()));
                if now[i].len() == path.len() {
                    assert(before[i] == path.drop_last());
                    assert(now[i] =~= path);
                }
            }
        }
    }
}

/// Away from Windows a path is absolute exactly where it begins with a slash, and has no prefix.
pub proof fn law_absolute_paths_begin_with_a_slash(path: Seq<char>)
    ensures
        absolute(path, false) <==> path.len() > 0 && path[0] == '/',
        prefix(path, false) is None,
{
    assert(path.skip(0) =~= path);
}

/// Away from Windows a path is put behind another with a slash between them, unless there is one or
/// nothing comes before it; an absolute path stays as it is.
pub proof fn law_paths_are_joined_with_slashes(base: Seq<char>, tail: Seq<char>)
    ensures
        tail.len() > 0 && tail[0] == '/' ==> joined_path(base, tail, false) == tail,
        (tail.len() == 0 || tail[0] != '/') && base.len() > 0 && base.last() != '/' ==> joined_path(
            base,
            tail,
            false,
        ) == base + seq!['/'] + tail,
        (tail.len() == 0 || tail[0] != '/') && (base.len() == 0 || base.last() == '/')
            ==> joined_path(base, tail, false) == base + tail,
{
    law_absolute_paths_begin_with_a_slash(tail);
    assert(tail.skip(0) =~= tail);
    assert(base.push('/') =~= base + seq!['/']);
}

/// On Windows a path is absolute where a drive is followed by a separator; a drive alone, or a
/// separator without a drive, is not enough.
pub proof fn law_absolute_paths_of_windows(path: Seq<char>)
    ensures
        ({
            let drive = path.len() >= 2 && path[1] == ':' && ('a' <= path[0] <= 'z' || 'A' <= path[0]
                <= 'Z');
            let sep_at = |i: int| i < path.len() && (path[i] == '/' || path[i] == '\\');
            &&& drive ==> (absolute(path, true) <==> sep_at(2))
            &&& !drive && !(sep_at(0) && sep_at(1)) ==> !absolute(path, true)
        }),
{
    let rest = path.skip(2);
    let drive = path.len() >= 2 && path[1] == ':' && ('a' <= path[0] <= 'z' || 'A' <= path[0]
        <= 'Z');
    if drive {
        assert(!is_sep(path[0], true));
        assert(drive_at(path, 0));
        assert(prefix_size(path, true) == 2);
        if path.len() > 2 {
            assert(rest[0] == path[2]);
        }
    }
}

/// On Windows a path with a prefix of its own replaces another; one that begins with a separator
/// keeps the prefix of the other; and any other comes behind it, with a backslash between them unless
/// there is a separator, nothing, or a drive alone before it.
pub proof fn law_paths_are_joined_on_windows(base: Seq<char>, tail: Seq<char>)
    requires
        !is_verbatim(base, true),
    ensures
        prefix(tail, true) is Some ==> joined_path(base, tail, true) == tail,
        prefix(tail, true) is None && tail.len() > 0 && (tail[0] == '/' || tail[0] == '\\')
            ==> joined_path(base, tail, true) == base.take(prefix_size(base, true) as int) + tail,
        prefix(tail, true) is None && (tail.len() == 0 || (tail[0] != '/' && tail[0] != '\\')) ==> {
            let drive_alone = base.len() == 2 && base[1] == ':' && ('a' <= base[0] <= 'z' || 'A'
                <= base[0] <= 'Z');
            &&& base.len() == 0 || base.last() == '/' || base.last() == '\\' || drive_alone
                ==> joined_path(base, tail, true) == base + tail
            &&& base.len() > 0 && base.last() != '/' && base.last() != '\\' && !drive_alone
                ==> joined_path(base, tail, true) == base + seq!['\\'] + tail
        },
{
    assert(tail.skip(0) =~= tail);
    assert(base.push('\\') =~= base + seq!['\\']);
}

proof fn lemma_pieces_behind(s: Seq<char>, name: Seq<char>)
    requires
        forall|i: int| 0 <= i < name.len() ==> #[trigger] name[i] != '/',
    ensures
        pieces(s.push('/') + name, false, false) == pieces(s, false, false).push(name),
    decreases name.len(),
{
    let whole = s.push('/') + name;
    let before = pieces(s, false, false);
    if name.len() == 0 {
        assert(whole =~= s.push('/'));
        assert(whole.drop_last() =~= s);
        assert(whole.last() == '/');
        assert(name =~= Seq::<char>::empty());
        assert(pieces(whole, false, false) == before.push(Seq::<char>::empty()));
    } else {
        let shorter = name.drop_last();
        assert forall|i: int| 0 <= i < shorter.len() implies #[trigger] shorter[i] != '/' by {
            assert(shorter[i] == name[i]);
        }
        lemma_pieces_behind(s, shorter);
        assert(whole.drop_last() =~= s.push('/') + shorter);
        assert(whole.last() == name[name.len() - 1]);
        assert(!splits(whole.last(), false, false));
        let inner = before.push(shorter);
        assert(inner.last() == shorter);
        assert(inner.drop_last() =~= before);
        assert(shorter.push(name.last()) =~= name);
    }
}

proof fn lemma_lone_piece(name: Seq<char>)
    requires
        forall|i: int| 0 <= i < name.len() ==> #[trigger] name[i] != '/',
    ensures
        pieces(name, false, false) == seq![name],
    decreases name.len(),
{
    if name.len() == 0 {
        assert(name =~= Seq::<char>::empty());
    } else {
        let shorter = name.drop_last();
        assert forall|i: int| 0 <= i < shorter.len() implies #[trigger] shorter[i] != '/' by {
            assert(shorter[i] == name[i]);
        }
        lemma_lone_piece(shorter);
        assert(name[name.len() - 1] != '/');
        assert(seq![shorter].drop_last() =~= Seq::<Seq<char>>::empty());
        assert(shorter.push(name.last()) =~= name);
        assert(pieces(name, false, false) =~= seq![name]);
    }
}

/// Away from Windows a path has the parts of the one before its last slash, and behind them the last
/// name; there a double dot is a step up, and a single dot or nothing adds no part.
pub proof fn law_last_name_is_the_last_part(base: Seq<char>, name: Seq<char>)
    requires
        base.len() > 0,
        forall|i: int| 0 <= i < name.len() ==> #[trigger] name[i] != '/',
    ensures
        ({
            let whole = parts(base.push('/') + name, false);
            &&& name.len() == 0 || name == "."@ ==> whole == parts(base, false)
            &&& name == ".."@ ==> whole == parts(base, false).push(Part::Up)
            &&& name.len() > 0 && name != "."@ && name != ".."@ ==> whole == parts(
                base,
                false,
            ).push(Part::Name(name)) && last_name(base.push('/') + name, false) == Some(name)
        }),
{
    reveal_strlit(".");
    reveal_strlit("..");
    let path = base.push('/') + name;
    assert(base.skip(0) =~= base);
    assert(path.skip(0) =~= path);
    assert(path[0] == base[0]);
    let b = body(base, false);
    assert(body(path, false) =~= b.push('/') + name);
    lemma_pieces_behind(b, name);
    lemma_pieces_nonempty(b, false, false);
    let all = pieces(b, false, false);
    assert(all.push(name).drop_last() =~= all);
    let head = head_parts(path, false);
    assert(head == head_parts(base, false));
    let inner = parts_of_pieces(all, head.len() == 0, false);
    let last = piece_parts(name, false);
    assert(parts(path, false) == head + (inner + last));
    assert(head + (inner + last) =~= (head + inner) + last);
    assert(parts(base, false) == head + inner);
    let before = parts(base, false);
    if last.len() == 0 {
        assert(before + last =~= before);
    } else {
        assert(last =~= seq![last[0]]);
        assert(before + last =~= before.push(last[0]));
    }
}

/// Away from Windows a path without a slash is one part, and a slash alone is the root.
pub proof fn law_path_without_slash_is_one_part(name: Seq<char>)
    requires
        forall|i: int| 0 <= i < name.len() ==> #[trigger] name[i] != '/',
    ensures
        name.len() == 0 ==> parts(name, false).len() == 0,
        name == "."@ ==> parts(name, false) == seq![Part::Here],
        name == ".."@ ==> parts(name, false) == seq![Part::Up],
        name.len() > 0 && name != "."@ && name != ".."@ ==> parts(name, false) == seq![
            Part::Name(name),
        ] && last_name(name, false) == Some(name),
        parts(seq!['/'] + name, false).len() > 0,
        parts(seq!['/'] + name, false)[0] == Part::Root,
        name.len() > 0 && name != "."@ && name != ".."@ ==> parts(seq!['/'] + name, false) == seq![
            Part::Root,
            Part::Name(name),
        ],
{
    reveal_strlit(".");
    reveal_strlit("..");
    assert(name.skip(0) =~= name);
    lemma_lone_piece(name);
    let all = seq![name];
    assert(all.drop_last() =~= Seq::<Seq<char>>::empty());
    assert(all.last() == name);
    let none = Seq::<Part>::empty();
    assert(parts_of_pieces(Seq::<Seq<char>>::empty(), true, false) =~= none);
    assert(parts_of_pieces(Seq::<Seq<char>>::empty(), false, false) =~= none);
    assert(none + piece_parts(name, true) =~= piece_parts(name, true));
    assert(none + piece_parts(name, false) =~= piece_parts(name, false));
    assert(parts_of_pieces(all, true, false) == piece_parts(name, true));
    assert(parts_of_pieces(all, false, false) == piece_parts(name, false));
    if name.len() > 0 {
        assert(name[0] != '/');
    }
    assert(head_parts(name, false) =~= none);
    assert(body(name, false) == name);
    assert(parts(name, false) =~= piece_parts(name, true));
    let rooted = seq!['/'] + name;
    assert(rooted.skip(0) =~= rooted);
    assert(rooted[0] == '/');
    assert(rooted.skip(1) =~= name);
    assert(head_parts(rooted, false) =~= seq![Part::Root]);
    assert(parts(rooted, false) =~= seq![Part::Root] + piece_parts(name, false));
}

proof fn lemma_last_dot(a: Seq<char>, b: Seq<char>)
    requires
        forall|i: int| 0 <= i < b.len() ==> #[trigger] b[i] != '.',
    ensures
        last_dot(a.push('.') + b) == a.len(),
        last_dot(b) == -1,
    decreases b.len(),
{
    let whole = a.push('.') + b;
    if b.len() == 0 {
        assert(whole =~= a.push('.'));
    } else {
        let shorter = b.drop_last();
        assert forall|i: int| 0 <= i < shorter.len() implies #[trigger] shorter[i] != '.' by {
            assert(shorter[i] == b[i]);
        }
        lemma_last_dot(a, shorter);
        assert(b[b.len() - 1] != '.');
        assert(whole.last() == b.last());
        assert(whole.drop_last() =~= a.push('.') + shorter);
    }
}

/// The extension of a name is what follows its last dot, and its stem what comes before; a name
/// without a dot, or with none but its first character, is all stem.
pub proof fn law_extension_follows_the_last_dot(a: Seq<char>, b: Seq<char>)
    requires
        forall|i: int| 0 <= i < b.len() ==> #[trigger] b[i] != '.',
    ensures
        a.len() > 0 ==> stem(a.push('.') + b) == a && name_extension(a.push('.') + b) == Some(b),
        stem(b) == b,
        name_extension(b) is None,
        stem(seq!['.'] + b) == seq!['.'] + b,
        name_extension(seq!['.'] + b) is None,
{
    lemma_last_dot(a, b);
    let none = Seq::<char>::empty();
    lemma_last_dot(none, b);
    assert(none.push('.') + b =~= seq!['.'] + b);
    let whole = a.push('.') + b;
    assert(whole.take(a.len() as int) =~= a);
    assert(whole.skip((a.len() + 1) as int) =~= b);
}

/// The stem and the extension of a path are those of its last name.
pub proof fn law_last_name_has_stem_and_extension(path: Seq<char>, on_windows: bool)
    ensures
        match last_name(path, on_windows) {
            Some(name) => last_stem(path, on_windows) == Some(stem(name)) && last_extension(
                path,
                on_windows,
            ) == name_extension(name),
            None => last_stem(path, on_windows) is None && last_extension(path, on_windows) is None,
        },
{
}

/// Behind a prefix that is taken word by word, a path is followed part by part: a root leads back to
/// the prefix, a step up takes the last name away, and a name is added.
pub proof fn law_paths_are_followed_part_by_part(base: Seq<Part>, tail: Seq<Part>, name: Seq<char>)
    ensures
        ({
            let so_far = followed(base, tail);
            &&& followed(base, Seq::empty()) == base
            &&& followed(base, tail.push(Part::Here)) == so_far
            &&& followed(base, tail.push(Part::Name(name))) == so_far.push(Part::Name(name))
            &&& so_far.len() > 0 && so_far.last() is Name ==> followed(base, tail.push(Part::Up))
                == so_far.drop_last()
            &&& so_far.len() == 0 || !(so_far.last() is Name) ==> followed(
                base,
                tail.push(Part::Up),
            ) == so_far
            &&& so_far.len() > 0 ==> followed(base, tail.push(Part::Root)) == seq![
                so_far[0],
                Part::Root,
            ]
        }),
{
    assert(tail.push(Part::Here).drop_last() =~= tail);
    assert(tail.push(Part::Name(name)).drop_last() =~= tail);
    assert(tail.push(Part::Up).drop_last() =~= tail);
    assert(tail.push(Part::Root).drop_last() =~= tail);
}

proof fn lemma_next_sep_is(s: Seq<char>, i: int, n: int, verbatim: bool)
    requires
        0 <= i <= n <= s.len(),
        forall|j: int| i <= j < n ==> !splits(#[trigger] s[j], true, verbatim),
        n < s.len() ==> splits(s[n], true, verbatim),
    ensures
        next_sep(s, i, verbatim) == n,
    decreases n - i,
{
    if i < n {
        assert(!splits(s[i], true, verbatim));
        lemma_next_sep_is(s, i + 1, n, verbatim);
    }
}

/// On Windows a path that begins with two separators, a server and a share lies on that server, and
/// is absolute.
pub proof fn law_network_paths_are_absolute(
    server: Seq<char>,
    share: Seq<char>,
    rest: Seq<char>,
)
    requires
        server.len() > 0,
        share.len() > 0,
        server != seq!['?'] && server != seq!['.'],
        forall|i: int| 0 <= i < server.len() ==> #[trigger] server[i] != '/' && server[i] != '\\',
        forall|i: int| 0 <= i < share.len() ==> #[trigger] share[i] != '/' && share[i] != '\\',
        rest.len() > 0 ==> rest[0] == '/' || rest[0] == '\\',
    ensures
        ({
            let path = seq!['\\', '\\'] + server + seq!['\\'] + share + rest;
            &&& prefix(path, true) == Some(
                Prefix { kind: PrefixKind::Unc, first: server, second: share },
            )
            &&& prefix_size(path, true) == server.len() + share.len() + 3
            &&& absolute(path, true)
            &&& !is_verbatim(path, true)
        }),
{
    let path = seq!['\\', '\\'] + server + seq!['\\'] + share + rest;
    let n = 2 + server.len() as int;
    let m = n + 1 + share.len() as int;
    assert(path[0] == '\\' && path[1] == '\\');
    assert forall|j: int| 2 <= j < n implies !splits(#[trigger] path[j], true, false) by {
        assert(path[j] == server[j - 2]);
    }
    assert(path[n] == '\\');
    lemma_next_sep_is(path, 2, n, false);
    assert forall|j: int| n + 1 <= j < m implies !splits(#[trigger] path[j], true, false) by {
        assert(path[j] == share[j - n - 1]);
    }
    if m < path.len() {
        assert(path[m] == rest[0]);
    }
    lemma_next_sep_is(path, n + 1, m, false);
    assert(component_at(path, 2, false) =~= server);
    assert(component_at(path, n + 1, false) =~= share);
    assert(path[2] == server[0]);
    if server.len() == 1 {
        assert(server =~= seq![server[0]]);
        assert(path[3] == '\\');
    } else {
        assert(path[3] == server[1]);
    }
}

/// On Windows a path may be taken word by word, and then a server and a share, a drive or a name
/// follows; a slash does not end any of them.
pub proof fn law_verbatim_paths_are_taken_word_by_word(
    server: Seq<char>,
    share: Seq<char>,
    name: Seq<char>,
)
    requires
        forall|i: int| 0 <= i < server.len() ==> #[trigger] server[i] != '\\',
        forall|i: int| 0 <= i < share.len() ==> #[trigger] share[i] != '\\',
        forall|i: int| 0 <= i < name.len() ==> #[trigger] name[i] != '\\',
        name.len() >= 2 ==> name[1] != ':' && name[1] != 'N',
    ensures
        ({
            let start = seq!['\\', '\\', '?', '\\'];
            let remote = start + seq!['U', 'N', 'C', '\\'] + server + seq!['\\'] + share;
            &&& prefix(remote, true) == Some(
                Prefix { kind: PrefixKind::VerbatimUnc, first: server, second: share },
            )
            &&& prefix(start + name, true) == Some(
                Prefix { kind: PrefixKind::Verbatim, first: name, second: Seq::empty() },
            )
            &&& is_verbatim(remote, true) && is_verbatim(start + name, true)
            &&& absolute(remote, true) && absolute(start + name, true)
        }),
{
    let start = seq!['\\', '\\', '?', '\\'];
    let remote = start + seq!['U', 'N', 'C', '\\'] + server + seq!['\\'] + share;
    let n = 8 + server.len() as int;
    let m = n + 1 + share.len() as int;
    assert forall|j: int| 8 <= j < n implies !splits(#[trigger] remote[j], true, true) by {
        assert(remote[j] == server[j - 8]);
    }
    assert(remote[n] == '\\');
    lemma_next_sep_is(remote, 8, n, true);
    assert forall|j: int| n + 1 <= j < m implies !splits(#[trigger] remote[j], true, true) by {
        assert(remote[j] == share[j - n - 1]);
    }
    lemma_next_sep_is(remote, n + 1, m, true);
    assert(component_at(remote, 8, true) =~= server);
    assert(component_at(remote, n + 1, true) =~= share);
    assert(remote[4] == 'U' && remote[5] == 'N' && remote[6] == 'C' && remote[7] == '\\');
    assert(remote[0] == '\\' && remote[1] == '\\' && remote[2] == '?' && remote[3] == '\\');
    let plain = start + name;
    assert(plain[0] == '\\' && plain[1] == '\\' && plain[2] == '?' && plain[3] == '\\');
    assert forall|j: int| 4 <= j < plain.len() implies !splits(#[trigger] plain[j], true, true) by {
        assert(plain[j] == name[j - 4]);
    }
    lemma_next_sep_is(plain, 4, plain.len() as int, true);
    assert(component_at(plain, 4, true) =~= name);
    if name.len() >= 2 {
        assert(plain[5] == name[1]);
    }
}

} // verus!

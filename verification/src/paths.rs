//! Windows paths as text: the prefix of a path, its file name, and a path in a directory.

use vstd::prelude::*;

use crate::text::{self, chars_of, join, same_text, slice_of, string_of};

verus! {

// ---------------------------------------------------------------------------
// Segments
// ---------------------------------------------------------------------------

/// Whether `c` parts the segments of a path.
pub open spec fn is_separator(c: char) -> bool {
    c == '\\' || c == '/'
}

/// Whether `c` parts the segments of a path, where a verbatim path has no `/` among its
/// separators.
pub open spec fn parts(c: char, verbatim: bool) -> bool {
    c == '\\' || (!verbatim && c == '/')
}

/// The length of the first segment of `s`: what stands before the first separator.
pub open spec fn segment_len(s: Seq<char>, verbatim: bool) -> nat
    decreases s.len(),
{
    if s.len() == 0 || parts(s[0], verbatim) {
        0
    } else {
        1 + segment_len(s.skip(1), verbatim)
    }
}

/// Where the last segment of `s` begins: behind the last separator.
pub open spec fn segment_start(s: Seq<char>, verbatim: bool) -> nat
    decreases s.len(),
{
    if s.len() == 0 || parts(s.last(), verbatim) {
        s.len()
    } else {
        segment_start(s.drop_last(), verbatim)
    }
}

/// The segments of `s` in order, without the empty ones.
pub open spec fn segments_of(s: Seq<char>, verbatim: bool) -> Seq<Seq<char>>
    decreases s.len(),
{
    if s.len() == 0 {
        Seq::empty()
    } else {
        let n = segment_len(s, verbatim);
        let rest = if n < s.len() {
            segments_of(s.skip(n as int + 1), verbatim)
        } else {
            Seq::empty()
        };
        if n == 0 {
            rest
        } else {
            seq![s.take(n as int)] + rest
        }
    }
}

fn separator(c: char) -> (b: bool)
    ensures
        b == is_separator(c),
{
    c == '\\' || c == '/'
}

fn parting(c: char, verbatim: bool) -> (b: bool)
    ensures
        b == parts(c, verbatim),
{
    c == '\\' || (!verbatim && c == '/')
}

/// The length of the first segment of `v` from `from` on.
fn measure_segment(v: &Vec<char>, from: usize, verbatim: bool) -> (n: usize)
    requires
        from <= v@.len(),
    ensures
        n == segment_len(v@.skip(from as int), verbatim),
        from + n <= v@.len(),
{
    let mut i: usize = from;
    while i < v.len() && !parting(v[i], verbatim)
        invariant
            from <= i <= v@.len(),
            segment_len(v@.skip(from as int), verbatim) == i - from + segment_len(
                v@.skip(i as int),
                verbatim,
            ),
        decreases v@.len() - i,
    {
        assert(v@.skip(i as int).skip(1) =~= v@.skip(i + 1));
        i = i + 1;
    }
    i - from
}

/// Where the last segment of the first `end` characters of `v` begins.
fn find_segment(v: &Vec<char>, end: usize, verbatim: bool) -> (start: usize)
    requires
        end <= v@.len(),
    ensures
        start <= end,
        start == segment_start(v@.take(end as int), verbatim),
{
    let mut start: usize = end;
    while start > 0 && !parting(v[start - 1], verbatim)
        invariant
            start <= end <= v@.len(),
            segment_start(v@.take(end as int), verbatim) == segment_start(
                v@.take(start as int),
                verbatim,
            ),
        decreases start,
    {
        assert(v@.take(start as int).drop_last() =~= v@.take(start - 1));
        start = start - 1;
    }
    start
}

/// The segments of `v` in order, without the empty ones.
fn split(v: &Vec<char>, verbatim: bool) -> (segments: Vec<String>)
    ensures
        text::texts(segments@) == segments_of(v@, verbatim),
{
    let mut segments: Vec<String> = Vec::new();
    let mut i: usize = 0;
    proof {
        assert(v@.skip(0) =~= v@);
        assert(text::texts(segments@) + segments_of(v@, verbatim) =~= segments_of(v@, verbatim));
    }
    while i < v.len()
        invariant
            i <= v@.len(),
            text::texts(segments@) + segments_of(v@.skip(i as int), verbatim) == segments_of(
                v@,
                verbatim,
            ),
        decreases v@.len() - i,
    {
        let ghost before = text::texts(segments@);
        let ghost rest = v@.skip(i as int);
        let n: usize = measure_segment(v, i, verbatim);
        if n > 0 {
            let segment = slice_of(v, i, i + n);
            segments.push(string_of(&segment));
            proof {
                assert(segment@ =~= rest.take(n as int));
                assert(text::texts(segments@) =~= before.push(rest.take(n as int)));
            }
        }
        let ghost now = text::texts(segments@);
        if i + n < v.len() {
            proof {
                assert(rest.skip(n + 1) =~= v@.skip(i + n + 1));
                assert(before + segments_of(rest, verbatim) =~= now + segments_of(
                    v@.skip(i + n + 1),
                    verbatim,
                ));
            }
            i = i + n + 1;
        } else {
            proof {
                assert(v@.skip(v@.len() as int) =~= Seq::empty());
                assert(before + segments_of(rest, verbatim) =~= now + segments_of(
                    v@.skip(v@.len() as int),
                    verbatim,
                ));
            }
            i = v.len();
        }
    }
    assert(text::texts(segments@) =~= segments_of(v@, verbatim)) by {
        assert(v@.skip(i as int) =~= Seq::empty());
    }
    segments
}

// ---------------------------------------------------------------------------
// Prefixes
// ---------------------------------------------------------------------------

/// What a path begins with.
#[derive(Clone, Copy, Debug, PartialEq, Eq, Structural)]
pub enum Prefix {
    /// Neither a drive nor a name behind two separators.
    Absent,
    /// A drive, such as `C:`.
    Drive,
    /// A share, such as `\\server\share`, or a device, such as `\\.\COM42`.
    Named,
    /// A name that is taken as it stands, such as `\\?\C:` or `\\?\UNC\server\share`.
    Verbatim,
}

/// Whether `path` begins with a drive, such as `C:`.
pub open spec fn has_drive(path: Seq<char>) -> bool {
    &&& path.len() >= 2
    &&& 'a' <= path[0] <= 'z' || 'A' <= path[0] <= 'Z'
    &&& path[1] == ':'
}

/// The length of the second segment of `s`.
pub open spec fn second_len(s: Seq<char>, verbatim: bool) -> nat {
    let first = segment_len(s, verbatim);
    if first < s.len() {
        segment_len(s.skip(first as int + 1), verbatim)
    } else {
        0
    }
}

/// The length of the prefix of a path whose characters behind `\\?\` are `s`: a server and a
/// share behind `UNC`, a drive, or one segment.
pub open spec fn verbatim_len(s: Seq<char>) -> nat {
    if s.len() >= 4 && s[0] == 'U' && s[1] == 'N' && s[2] == 'C' && is_separator(s[3]) {
        let names = s.skip(4);
        let share = second_len(names, true);
        8 + segment_len(names, true) + if share > 0 {
            1 + share
        } else {
            0
        }
    } else if has_drive(s) && (s.len() == 2 || is_separator(s[2])) {
        6
    } else {
        4 + segment_len(s, true)
    }
}

/// What `path` begins with, and how long that is.
pub open spec fn prefix_of(path: Seq<char>) -> (Prefix, nat) {
    if path.len() >= 2 && is_separator(path[0]) && is_separator(path[1]) {
        let names = path.skip(2);
        let server = segment_len(names, false);
        let share = second_len(names, false);
        if path.len() >= 4 && path[0] == '\\' && path[1] == '\\' && path[2] == '?' && path[3]
            == '\\' {
            (Prefix::Verbatim, verbatim_len(path.skip(4)))
        } else if path.len() >= 4 && path[2] == '.' && is_separator(path[3]) {
            (Prefix::Named, 4 + segment_len(path.skip(4), false))
        } else if server > 0 && share > 0 {
            (Prefix::Named, 2 + server + 1 + share)
        } else {
            (Prefix::Absent, 0)
        }
    } else if has_drive(path) {
        (Prefix::Drive, 2)
    } else {
        (Prefix::Absent, 0)
    }
}

/// Whether a separator, the root, stands at the beginning of `rest`.
pub open spec fn is_rooted(rest: Seq<char>) -> bool {
    rest.len() > 0 && is_separator(rest[0])
}

/// What of `path` stands behind its prefix and its root.
pub open spec fn body_of(path: Seq<char>) -> Seq<char> {
    let rest = path.skip(prefix_of(path).1 as int);
    if is_rooted(rest) {
        rest.skip(1)
    } else {
        rest
    }
}

fn drive_at(v: &Vec<char>, from: usize) -> (b: bool)
    requires
        from <= v@.len(),
    ensures
        b == has_drive(v@.skip(from as int)),
{
    v.len() - from >= 2 && (('a' <= v[from] && v[from] <= 'z') || ('A' <= v[from] && v[from]
        <= 'Z')) && v[from + 1] == ':'
}

/// The length of the second segment of `v` from `from` on, where the first has the length
/// `first`.
fn measure_second(v: &Vec<char>, from: usize, first: usize, verbatim: bool) -> (n: usize)
    requires
        from + first <= v@.len(),
        first == segment_len(v@.skip(from as int), verbatim),
    ensures
        n == second_len(v@.skip(from as int), verbatim),
        n > 0 ==> from + first + 1 + n <= v@.len(),
{
    if first < v.len() - from {
        assert(v@.skip(from as int).skip(first + 1) =~= v@.skip(from + first + 1));
        measure_segment(v, from + first + 1, verbatim)
    } else {
        0
    }
}

fn measure_verbatim(v: &Vec<char>) -> (n: usize)
    requires
        v@.len() >= 4,
    ensures
        n == verbatim_len(v@.skip(4)),
        n <= v@.len(),
{
    if v.len() >= 8 && v[4] == 'U' && v[5] == 'N' && v[6] == 'C' && separator(v[7]) {
        assert(v@.skip(4).skip(4) =~= v@.skip(8));
        let server: usize = measure_segment(v, 8, true);
        let share: usize = measure_second(v, 8, server, true);
        if share > 0 {
            8 + server + 1 + share
        } else {
            8 + server
        }
    } else if drive_at(v, 4) && (v.len() == 6 || separator(v[6])) {
        6
    } else {
        4 + measure_segment(v, 4, true)
    }
}

fn find_prefix(v: &Vec<char>) -> (found: (Prefix, usize))
    ensures
        (found.0, found.1 as nat) == prefix_of(v@),
        found.1 <= v@.len(),
{
    if v.len() >= 2 && separator(v[0]) && separator(v[1]) {
        if v.len() >= 4 && v[0] == '\\' && v[1] == '\\' && v[2] == '?' && v[3] == '\\' {
            return (Prefix::Verbatim, measure_verbatim(v));
        }
        if v.len() >= 4 && v[2] == '.' && separator(v[3]) {
            return (Prefix::Named, 4 + measure_segment(v, 4, false));
        }
        let server: usize = measure_segment(v, 2, false);
        let share: usize = measure_second(v, 2, server, false);
        if server > 0 && share > 0 {
            (Prefix::Named, 2 + server + 1 + share)
        } else {
            (Prefix::Absent, 0)
        }
    } else {
        assert(v@.skip(0) =~= v@);
        if drive_at(v, 0) {
            (Prefix::Drive, 2)
        } else {
            (Prefix::Absent, 0)
        }
    }
}

fn rooted_at(v: &Vec<char>, from: usize) -> (b: bool)
    requires
        from <= v@.len(),
    ensures
        b == is_rooted(v@.skip(from as int)),
{
    from < v.len() && separator(v[from])
}

/// What of `v` stands behind its prefix, of the length `len`, and its root.
fn take_body(v: &Vec<char>, len: usize) -> (body: Vec<char>)
    requires
        len == prefix_of(v@).1,
        len <= v@.len(),
    ensures
        body@ == body_of(v@),
{
    let end: usize = v.len();
    let from: usize = if rooted_at(v, len) {
        len + 1
    } else {
        len
    };
    let body = slice_of(v, from, end);
    assert(body@ =~= body_of(v@));
    body
}

// ---------------------------------------------------------------------------
// File names
// ---------------------------------------------------------------------------

/// The last segment of `s` that is not empty and not `.`; nothing where there is none, and
/// nothing where it is `..`, which leads elsewhere. In a verbatim path there is nothing where
/// it is `.` either.
pub open spec fn last_name(s: Seq<char>, verbatim: bool) -> Seq<char>
    decreases s.len(),
{
    let start = segment_start(s, verbatim);
    let segment = s.skip(start as int);
    if segment.len() == 0 || (segment == "."@ && !verbatim) {
        if 0 < start <= s.len() {
            last_name(s.take(start - 1), verbatim)
        } else {
            Seq::empty()
        }
    } else if segment == "."@ || segment == ".."@ {
        Seq::empty()
    } else {
        segment
    }
}

/// The file name of `path`: nothing of its prefix and its directories.
pub open spec fn file_name_of(path: Seq<char>) -> Seq<char> {
    last_name(body_of(path), prefix_of(path).0 == Prefix::Verbatim)
}

/// The file name of `path`: nothing of its prefix and its directories.
pub fn file_name(path: &str) -> (name: String)
    ensures
        name@ == file_name_of(path@),
{
    let all = chars_of(path);
    let (prefix, len) = find_prefix(&all);
    let verbatim = matches!(prefix, Prefix::Verbatim);
    let v = take_body(&all, len);
    let mut end: usize = v.len();
    assert(v@.take(v@.len() as int) =~= v@);
    loop
        invariant
            end <= v@.len(),
            last_name(v@.take(end as int), verbatim) == file_name_of(path@),
        decreases end,
    {
        let start: usize = find_segment(&v, end, verbatim);
        let segment = string_of(&slice_of(&v, start, end));
        assert(segment@ =~= v@.take(end as int).skip(start as int));
        let dot = same_text(segment.as_str(), ".");
        if start == end || (dot && !verbatim) {
            if start == 0 {
                return String::new();
            }
            assert(v@.take(end as int).take(start - 1) =~= v@.take(start - 1));
            end = start - 1;
        } else if dot || same_text(segment.as_str(), "..") {
            return String::new();
        } else {
            return segment;
        }
    }
}

// ---------------------------------------------------------------------------
// Paths in a directory
// ---------------------------------------------------------------------------

/// The segments `at` once `segment` has been followed: `.` leads nowhere, `..` takes the last
/// segment away where that is a name, and a name is added.
pub open spec fn followed(at: Seq<Seq<char>>, segment: Seq<char>) -> Seq<Seq<char>> {
    if segment == "."@ {
        at
    } else if segment == ".."@ {
        if at.len() > 0 && at.last() != "."@ && at.last() != ".."@ {
            at.drop_last()
        } else {
            at
        }
    } else {
        at.push(segment)
    }
}

/// The segments `at` once all of `segments` have been followed.
pub open spec fn walked(at: Seq<Seq<char>>, segments: Seq<Seq<char>>) -> Seq<Seq<char>>
    decreases segments.len(),
{
    if segments.len() == 0 {
        at
    } else {
        walked(followed(at, segments[0]), segments.drop_first())
    }
}

/// The path of `path`, which has no prefix, in the verbatim directory `dir`. As nothing else
/// gives `.` and `..` a meaning in a verbatim path, they are followed here.
pub open spec fn joined_verbatim(dir: Seq<char>, path: Seq<char>) -> Seq<char> {
    let len = prefix_of(dir).1 as int;
    let from = if is_rooted(path) {
        Seq::empty()
    } else {
        segments_of(body_of(dir), true)
    };
    let to = walked(from, segments_of(path, false));
    if to.len() == 0 && !is_rooted(dir.skip(len)) && !is_rooted(path) {
        dir.take(len)
    } else {
        dir.take(len).push('\\') + text::join_of(to, r"\"@)
    }
}

/// The path of `path` in the directory `dir`. A path with a prefix replaces the directory, and
/// one with a root replaces all of it but its prefix. A directory that ends in a separator, a
/// bare drive and no directory at all get no separator.
pub open spec fn joined(dir: Seq<char>, path: Seq<char>) -> Seq<char> {
    let (prefix, len) = prefix_of(dir);
    if prefix_of(path).0 != Prefix::Absent {
        path
    } else if prefix == Prefix::Verbatim && path.len() > 0 {
        joined_verbatim(dir, path)
    } else if is_rooted(path) {
        dir.take(len as int) + path
    } else if dir.len() == 0 || is_separator(dir.last()) || (prefix == Prefix::Drive && len
        == dir.len()) {
        dir + path
    } else {
        dir.push('\\') + path
    }
}

fn follow(at: &mut Vec<String>, segment: &String)
    ensures
        text::texts(final(at)@) == followed(text::texts(old(at)@), segment@),
{
    let ghost before = text::texts(at@);
    if same_text(segment.as_str(), ".") {
        return;
    }
    if same_text(segment.as_str(), "..") {
        let n: usize = at.len();
        if n > 0 {
            let last = at[n - 1].as_str();
            assert(last@ == before.last());
            if !same_text(last, ".") && !same_text(last, "..") {
                at.pop();
                assert(text::texts(at@) =~= before.drop_last());
            }
        }
        return;
    }
    at.push(segment.clone());
    assert(text::texts(at@) =~= before.push(segment@));
}

fn walk(at: &mut Vec<String>, segments: &Vec<String>)
    ensures
        text::texts(final(at)@) == walked(text::texts(old(at)@), text::texts(segments@)),
{
    let mut i: usize = 0;
    let ghost all = text::texts(segments@);
    let ghost goal = walked(text::texts(at@), all);
    assert(all.skip(0) =~= all);
    while i < segments.len()
        invariant
            i <= segments@.len(),
            all == text::texts(segments@),
            walked(text::texts(at@), all.skip(i as int)) == goal,
        decreases segments@.len() - i,
    {
        assert(all.skip(i as int)[0] == segments@[i as int]@);
        assert(all.skip(i as int).drop_first() =~= all.skip(i + 1));
        follow(at, &segments[i]);
        i = i + 1;
    }
}

fn join_verbatim(dir: &Vec<char>, len: usize, path: &Vec<char>) -> (whole: String)
    requires
        len == prefix_of(dir@).1,
        len <= dir@.len(),
    ensures
        whole@ == joined_verbatim(dir@, path@),
{
    let rooted = rooted_at(path, 0);
    assert(path@.skip(0) =~= path@);
    let mut to: Vec<String> = if rooted {
        Vec::new()
    } else {
        split(&take_body(dir, len), true)
    };
    assert(rooted ==> text::texts(to@) =~= Seq::<Seq<char>>::empty());
    walk(&mut to, &split(path, false));
    let mut whole = string_of(&slice_of(dir, 0, len));
    assert(whole@ =~= dir@.take(len as int));
    if to.len() > 0 || rooted_at(dir, len) || rooted {
        whole.push('\\');
        whole.append(join(&to, r"\").as_str());
    }
    whole
}

/// The path of `path` in the directory `dir`.
pub fn join_path(dir: &str, path: &str) -> (whole: String)
    ensures
        whole@ == joined(dir@, path@),
{
    let d = chars_of(dir);
    let p = chars_of(path);
    assert(p@.skip(0) =~= p@);
    let (prefix, len) = find_prefix(&d);
    if !matches!(find_prefix(&p).0, Prefix::Absent) {
        return path.to_owned();
    }
    if matches!(prefix, Prefix::Verbatim) && p.len() > 0 {
        return join_verbatim(&d, len, &p);
    }
    if rooted_at(&p, 0) {
        let mut whole = string_of(&slice_of(&d, 0, len));
        whole.append(path);
        assert(whole@ =~= d@.take(len as int) + p@);
        return whole;
    }
    let mut whole = dir.to_owned();
    let bare = matches!(prefix, Prefix::Drive) && len == d.len();
    if !(d.len() == 0 || separator(d[d.len() - 1]) || bare) {
        whole.push('\\');
    }
    whole.append(path);
    whole
}

// ---------------------------------------------------------------------------
// Laws
// ---------------------------------------------------------------------------

/// Whether `name` can be the name of a file: some characters, no separator, and neither `.`
/// nor `..`.
pub open spec fn is_name(name: Seq<char>) -> bool {
    &&& name.len() > 0
    &&& forall|i: int| 0 <= i < name.len() ==> !is_separator(#[trigger] name[i])
    &&& name != "."@
    &&& name != ".."@
}

proof fn lemma_segment_len(s: Seq<char>, verbatim: bool)
    ensures
        segment_len(s, verbatim) <= s.len(),
    decreases s.len(),
{
    if s.len() > 0 && !parts(s[0], verbatim) {
        lemma_segment_len(s.skip(1), verbatim);
    }
}

proof fn lemma_second_len(s: Seq<char>, verbatim: bool)
    ensures
        segment_len(s, verbatim) <= s.len(),
        second_len(s, verbatim) > 0 ==> segment_len(s, verbatim) + 1 + second_len(s, verbatim)
            <= s.len(),
{
    lemma_segment_len(s, verbatim);
    let first = segment_len(s, verbatim);
    if first < s.len() {
        lemma_segment_len(s.skip(first as int + 1), verbatim);
    }
}

/// A prefix is part of its path.
pub proof fn law_prefix_is_part_of_the_path(path: Seq<char>)
    ensures
        prefix_of(path).1 <= path.len(),
{
    if path.len() >= 2 {
        lemma_second_len(path.skip(2), false);
    }
    if path.len() >= 4 {
        lemma_segment_len(path.skip(4), false);
        lemma_segment_len(path.skip(4), true);
    }
    if path.len() >= 8 {
        assert(path.skip(4).skip(4) =~= path.skip(8));
        lemma_second_len(path.skip(8), true);
    }
}

/// A path that is all prefix, or a prefix and a root, has no file name.
pub proof fn law_prefix_has_no_file_name(path: Seq<char>)
    requires
        body_of(path).len() == 0,
    ensures
        file_name_of(path).len() == 0,
{
}

proof fn lemma_segment_behind_separator(s: Seq<char>, name: Seq<char>, verbatim: bool)
    requires
        s.len() == 0 || parts(s.last(), verbatim),
        forall|i: int| 0 <= i < name.len() ==> !is_separator(#[trigger] name[i]),
    ensures
        segment_start(s + name, verbatim) == s.len(),
    decreases name.len(),
{
    let all = s + name;
    if name.len() == 0 {
        assert(all =~= s);
    } else {
        assert(all.last() == name[name.len() - 1]);
        assert(all.drop_last() =~= s + name.drop_last());
        lemma_segment_behind_separator(s, name.drop_last(), verbatim);
    }
}

/// The file name of a file in a directory is its name, whatever the directory is, unless the
/// name is taken into the prefix, as in `\\server\share`.
pub proof fn law_file_name_in_directory(dir: Seq<char>, name: Seq<char>)
    requires
        is_name(name),
        prefix_of(dir.push('\\') + name).1 <= dir.len(),
    ensures
        file_name_of(dir.push('\\') + name) == name,
{
    let path = dir.push('\\') + name;
    let (prefix, len) = prefix_of(path);
    let verbatim = prefix == Prefix::Verbatim;
    let rest = path.skip(len as int);
    let front = if is_rooted(rest) {
        dir.push('\\').skip(len as int + 1)
    } else {
        dir.push('\\').skip(len as int)
    };
    assert(body_of(path) =~= front + name);
    assert(front.len() > 0 ==> front.last() == '\\');
    lemma_segment_behind_separator(front, name, verbatim);
    assert((front + name).skip(front.len() as int) =~= name);
}

proof fn lemma_segment_start(s: Seq<char>, verbatim: bool)
    ensures
        segment_start(s, verbatim) <= s.len(),
        forall|i: int|
            segment_start(s, verbatim) <= i < s.len() ==> !parts(#[trigger] s[i], verbatim),
    decreases s.len(),
{
    if s.len() > 0 && !parts(s.last(), verbatim) {
        lemma_segment_start(s.drop_last(), verbatim);
        assert forall|i: int| segment_start(s, verbatim) <= i < s.len() implies !parts(
            #[trigger] s[i],
            verbatim,
        ) by {
            if i < s.len() - 1 {
                assert(s[i] == s.drop_last()[i]);
            }
        }
    }
}

proof fn lemma_last_name(s: Seq<char>, verbatim: bool)
    ensures
        ({
            let name = last_name(s, verbatim);
            &&& name != "."@ && name != ".."@
            &&& forall|i: int| 0 <= i < name.len() ==> !parts(#[trigger] name[i], verbatim)
        }),
    decreases s.len(),
{
    reveal_strlit(".");
    reveal_strlit("..");
    lemma_segment_start(s, verbatim);
    let start = segment_start(s, verbatim);
    let segment = s.skip(start as int);
    assert forall|i: int| 0 <= i < segment.len() implies !parts(
        #[trigger] segment[i],
        verbatim,
    ) by {
        assert(segment[i] == s[start + i]);
    }
    assert(Seq::<char>::empty().len() == 0);
    assert("."@.len() == 1 && ".."@.len() == 2);
    if 0 < start {
        lemma_last_name(s.take(start - 1), verbatim);
    }
}

/// The file name of a path is empty or can be the name of a file; that of a verbatim path may
/// hold `/`, which is no separator there.
pub proof fn law_file_name_is_a_name(path: Seq<char>)
    ensures
        prefix_of(path).0 != Prefix::Verbatim ==> file_name_of(path).len() == 0 || is_name(
            file_name_of(path),
        ),
        file_name_of(path) != "."@,
        file_name_of(path) != ".."@,
        forall|i: int| 0 <= i < file_name_of(path).len() ==> #[trigger] file_name_of(path)[i] != '\\',
{
    lemma_last_name(body_of(path), prefix_of(path).0 == Prefix::Verbatim);
}

/// A name that does not look like a drive goes behind the directory, with one separator
/// between them where there is none yet; a verbatim directory is another matter.
pub proof fn law_name_goes_behind_the_directory(dir: Seq<char>, name: Seq<char>)
    requires
        is_name(name),
        !has_drive(name),
        prefix_of(dir).0 != Prefix::Verbatim,
    ensures
        joined(dir, name) == if dir.len() == 0 || is_separator(dir.last()) || (dir.len() == 2
            && has_drive(dir)) {
            dir + name
        } else {
            dir.push('\\') + name
        },
{
    assert(!is_separator(name[0]));
}

/// A path with a prefix of its own replaces the directory.
pub proof fn law_prefix_replaces_the_directory(dir: Seq<char>, path: Seq<char>)
    requires
        prefix_of(path).1 > 0,
    ensures
        joined(dir, path) == path,
{
}

proof fn lemma_segment_of_name(name: Seq<char>, rest: Seq<char>, verbatim: bool)
    requires
        forall|i: int| 0 <= i < name.len() ==> !is_separator(#[trigger] name[i]),
        rest.len() == 0 || rest[0] == '\\',
    ensures
        segment_len(name + rest, verbatim) == name.len(),
    decreases name.len(),
{
    let all = name + rest;
    if name.len() == 0 {
        assert(all =~= rest);
    } else {
        assert(all[0] == name[0]);
        let tail = name.skip(1);
        assert(all.skip(1) =~= tail + rest);
        assert forall|i: int| 0 <= i < tail.len() implies !is_separator(#[trigger] tail[i]) by {
            assert(tail[i] == name[i + 1]);
        }
        lemma_segment_of_name(tail, rest, verbatim);
    }
}

/// A letter and a colon are a drive, whatever follows, and make up the whole prefix.
pub proof fn law_drive_is_a_prefix(letter: char, rest: Seq<char>)
    requires
        'a' <= letter <= 'z' || 'A' <= letter <= 'Z',
    ensures
        prefix_of(seq![letter, ':'] + rest) == (Prefix::Drive, 2nat),
{
}

/// Two backslashes, a server and a share are a prefix, with what follows it no part of it.
pub proof fn law_share_is_a_prefix(server: Seq<char>, share: Seq<char>, rest: Seq<char>)
    requires
        is_name(server),
        server != "?"@,
        share.len() > 0,
        forall|i: int| 0 <= i < share.len() ==> !is_separator(#[trigger] share[i]),
        rest.len() == 0 || rest[0] == '\\',
    ensures
        prefix_of(seq!['\\', '\\'] + server + seq!['\\'] + share + rest) == (
            Prefix::Named,
            (3 + server.len() + share.len()) as nat,
        ),
{
    reveal_strlit("?");
    reveal_strlit(".");
    let path = seq!['\\', '\\'] + server + seq!['\\'] + share + rest;
    let tail = seq!['\\'] + share + rest;
    assert(path.skip(2) =~= server + tail);
    lemma_segment_of_name(server, tail, false);
    assert((server + tail).skip(server.len() as int + 1) =~= share + rest);
    lemma_segment_of_name(share, rest, false);
    assert(path[2] == server[0]);
    if server.len() == 1 {
        assert(server[0] != '?') by {
            if server[0] == '?' {
                assert(server =~= "?"@);
            }
        }
        assert(server[0] != '.') by {
            if server[0] == '.' {
                assert(server =~= "."@);
            }
        }
    } else {
        assert(path[3] == server[1]);
    }
}

/// A drive behind `\\?\` is a verbatim prefix.
pub proof fn law_verbatim_drive(letter: char, rest: Seq<char>)
    requires
        'a' <= letter <= 'z' || 'A' <= letter <= 'Z',
        rest.len() == 0 || rest[0] == '\\',
    ensures
        prefix_of(seq!['\\', '\\', '?', '\\', letter, ':'] + rest) == (Prefix::Verbatim, 6nat),
{
    let path = seq!['\\', '\\', '?', '\\', letter, ':'] + rest;
    assert(path.skip(4) =~= seq![letter, ':'] + rest);
}

/// One segment behind `\\?\` that is no drive is a verbatim prefix.
pub proof fn law_verbatim_name(name: Seq<char>, rest: Seq<char>)
    requires
        name.len() > 2,
        name != "UNC"@,
        forall|i: int| 0 <= i < name.len() ==> !is_separator(#[trigger] name[i]),
        rest.len() == 0 || rest[0] == '\\',
    ensures
        prefix_of(seq!['\\', '\\', '?', '\\'] + name + rest) == (
            Prefix::Verbatim,
            (4 + name.len()) as nat,
        ),
{
    reveal_strlit("UNC");
    let path = seq!['\\', '\\', '?', '\\'] + name + rest;
    let s = name + rest;
    assert(path.skip(4) =~= s);
    lemma_segment_of_name(name, rest, true);
    assert(s[0] == name[0] && s[1] == name[1] && s[2] == name[2]);
    if s.len() >= 4 && s[0] == 'U' && s[1] == 'N' && s[2] == 'C' && is_separator(s[3]) {
        if name.len() > 3 {
            assert(s[3] == name[3]);
        } else {
            assert(name =~= "UNC"@);
        }
    }
}

/// A server and a share behind `\\?\UNC\` are a verbatim prefix.
pub proof fn law_verbatim_share(server: Seq<char>, share: Seq<char>, rest: Seq<char>)
    requires
        share.len() > 0,
        forall|i: int| 0 <= i < server.len() ==> !is_separator(#[trigger] server[i]),
        forall|i: int| 0 <= i < share.len() ==> !is_separator(#[trigger] share[i]),
        rest.len() == 0 || rest[0] == '\\',
    ensures
        prefix_of(
            seq!['\\', '\\', '?', '\\', 'U', 'N', 'C', '\\'] + (server + (seq!['\\'] + (share
                + rest))),
        ) == (Prefix::Verbatim, (9 + server.len() + share.len()) as nat),
{
    let tail = seq!['\\'] + (share + rest);
    let names = server + tail;
    let path = seq!['\\', '\\', '?', '\\', 'U', 'N', 'C', '\\'] + names;
    assert(path.skip(4) =~= seq!['U', 'N', 'C', '\\'] + names);
    assert(path.skip(4).skip(4) =~= names);
    lemma_segment_of_name(server, tail, true);
    assert(names.skip(server.len() as int + 1) =~= share + rest);
    lemma_segment_of_name(share, rest, true);
}

/// One segment behind `\\.\` is the prefix of a device.
pub proof fn law_device_is_a_prefix(name: Seq<char>, rest: Seq<char>)
    requires
        forall|i: int| 0 <= i < name.len() ==> !is_separator(#[trigger] name[i]),
        rest.len() == 0 || rest[0] == '\\',
    ensures
        prefix_of(seq!['\\', '\\', '.', '\\'] + name + rest) == (
            Prefix::Named,
            (4 + name.len()) as nat,
        ),
{
    let path = seq!['\\', '\\', '.', '\\'] + name + rest;
    assert(path.skip(4) =~= name + rest);
    lemma_segment_of_name(name, rest, false);
}

/// A path with a root and no prefix replaces all of the directory but its prefix; a verbatim
/// directory is another matter.
pub proof fn law_root_keeps_the_prefix(dir: Seq<char>, path: Seq<char>)
    requires
        path.len() > 0,
        is_separator(path[0]),
        prefix_of(path).0 is Absent,
        !(prefix_of(dir).0 is Verbatim),
    ensures
        joined(dir, path) == dir.take(prefix_of(dir).1 as int) + path,
{
}

/// The segments of a path are what stands between its separators, without the empty ones.
pub proof fn law_segments_stand_between_separators(
    name: Seq<char>,
    rest: Seq<char>,
    verbatim: bool,
)
    requires
        forall|i: int| 0 <= i < name.len() ==> !is_separator(#[trigger] name[i]),
    ensures
        segments_of(Seq::empty(), verbatim).len() == 0,
        name.len() > 0 ==> segments_of(name, verbatim) == seq![name],
        segments_of(name + seq!['\\'] + rest, verbatim) == (if name.len() > 0 {
            seq![name]
        } else {
            Seq::empty()
        }) + segments_of(rest, verbatim),
{
    let all = name + seq!['\\'] + rest;
    assert(all =~= name + (seq!['\\'] + rest));
    lemma_segment_of_name(name, seq!['\\'] + rest, verbatim);
    lemma_segment_of_name(name, Seq::empty(), verbatim);
    assert(name + Seq::empty() =~= name);
    assert(all.skip(name.len() as int + 1) =~= rest);
    assert(all.take(name.len() as int) =~= name);
    assert(name.take(name.len() as int) =~= name);
    if name.len() > 0 {
        assert(segments_of(name, verbatim) =~= seq![name]);
    }
    assert(segments_of(all, verbatim) =~= (if name.len() > 0 {
        seq![name]
    } else {
        Seq::empty()
    }) + segments_of(rest, verbatim));
}

/// In a verbatim directory a name comes behind the segments of the directory, each parted from
/// the next by one backslash.
pub proof fn law_name_in_a_verbatim_directory(dir: Seq<char>, name: Seq<char>)
    requires
        prefix_of(dir).0 is Verbatim,
        is_name(name),
        !has_drive(name),
    ensures
        joined(dir, name) == dir.take(prefix_of(dir).1 as int) + seq!['\\'] + text::join_of(
            segments_of(body_of(dir), true).push(name),
            r"\"@,
        ),
{
    assert(!is_separator(name[0]));
    law_segments_stand_between_separators(name, Seq::empty(), false);
    reveal_with_fuel(walked, 2);
    let from = segments_of(body_of(dir), true);
    assert(seq![name].drop_first() =~= Seq::<Seq<char>>::empty());
    let len = prefix_of(dir).1 as int;
    assert(dir.take(len).push('\\') =~= dir.take(len) + seq!['\\']);
}

/// Following a name adds it, following `.` leads nowhere, and following `..` takes the last
/// segment away where that is a name.
pub proof fn law_following_segments(at: Seq<Seq<char>>, name: Seq<char>)
    requires
        is_name(name),
    ensures
        followed(at, name) == at.push(name),
        followed(at, "."@) == at,
        followed(at.push(name), ".."@) == at,
        followed(Seq::empty(), ".."@).len() == 0,
{
    reveal_strlit(".");
    reveal_strlit("..");
    assert("."@.len() != ".."@.len());
    assert(at.push(name).drop_last() =~= at);
}

/// A separator at the end of the segments does not count, and neither does a `.` behind it, but
/// for a verbatim path; behind `..` there is no file name.
pub proof fn law_ends_of_paths(s: Seq<char>, verbatim: bool)
    ensures
        last_name(s.push('\\'), verbatim) == last_name(s, verbatim),
        !verbatim ==> last_name(s.push('\\') + seq!['.'], verbatim) == last_name(s, verbatim),
        verbatim ==> last_name(s.push('\\') + seq!['.'], verbatim).len() == 0,
        last_name(s.push('\\') + seq!['.', '.'], verbatim).len() == 0,
{
    reveal_strlit(".");
    reveal_strlit("..");
    let sep = s.push('\\');
    let one = sep + seq!['.'];
    let two = sep + seq!['.', '.'];
    lemma_segment_behind_separator(sep, seq!['.'], verbatim);
    lemma_segment_behind_separator(sep, seq!['.', '.'], verbatim);
    assert(sep.take(s.len() as int) =~= s);
    assert(one.take(s.len() as int) =~= s);
    assert(sep.skip(sep.len() as int) =~= Seq::empty());
    assert(one.skip(sep.len() as int) =~= "."@);
    assert(two.skip(sep.len() as int) =~= ".."@);
    assert(".."@.len() == 2 && "."@.len() == 1);
}

/// The file name of a path is read from what stands behind its prefix and its root.
pub proof fn law_file_name_stands_behind_the_prefix(path: Seq<char>)
    ensures
        ({
            let rest = path.skip(prefix_of(path).1 as int);
            let verbatim = prefix_of(path).0 is Verbatim;
            &&& rest.len() > 0 && is_separator(rest[0]) ==> file_name_of(path) == last_name(
                rest.skip(1),
                verbatim,
            )
            &&& rest.len() == 0 || !is_separator(rest[0]) ==> file_name_of(path) == last_name(
                rest,
                verbatim,
            )
        }),
{
}

} // verus!

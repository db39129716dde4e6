//! Text as sequences of characters: comparing, trimming, splitting, replacing and joining,
//! each with its mathematical meaning.

use vstd::prelude::*;

verus! {

/// `String::push` appends the given character to the end of the string.
pub assume_specification[ String::push ](s: &mut String, c: char)
    ensures
        final(s)@ == old(s)@.push(c),
;

// ---------------------------------------------------------------------------
// Views of collections of text
// ---------------------------------------------------------------------------

/// The texts that a sequence of strings holds.
pub open spec fn texts(v: Seq<String>) -> Seq<Seq<char>> {
    Seq::new(v.len(), |i: int| v[i]@)
}

/// The text that an optional string holds.
pub open spec fn opt_text(o: Option<String>) -> Option<Seq<char>> {
    match o {
        Some(s) => Some(s@),
        None => None,
    }
}

/// The texts that a sequence of character vectors holds.
pub open spec fn char_texts(v: Seq<Vec<char>>) -> Seq<Seq<char>> {
    Seq::new(v.len(), |i: int| v[i]@)
}

// ---------------------------------------------------------------------------
// Conversions
// ---------------------------------------------------------------------------

/// The characters of `s`, in order.
pub fn chars_of(s: &str) -> (v: Vec<char>)
    ensures
        v@ == s@,
{
    let mut v: Vec<char> = Vec::new();
    for c in it: s.chars()
        invariant
            it.seq() == s@,
            v@ == s@.take(it.index()),
    {
        v.push(c);
    }
    v
}

/// The characters of `v` from `from` up to but not including `to`.
pub fn slice_of(v: &Vec<char>, from: usize, to: usize) -> (r: Vec<char>)
    requires
        from <= to <= v@.len(),
    ensures
        r@ == v@.subrange(from as int, to as int),
{
    let mut r: Vec<char> = Vec::new();
    let mut i: usize = from;
    while i < to
        invariant
            from <= i <= to <= v@.len(),
            r@ == v@.subrange(from as int, i as int),
        decreases to - i,
    {
        r.push(v[i]);
        i = i + 1;
    }
    r
}

/// The string whose characters are those of `v`.
pub fn string_of(v: &Vec<char>) -> (s: String)
    ensures
        s@ == v@,
{
    let mut s: String = String::new();
    let mut i: usize = 0;
    while i < v.len()
        invariant
            i <= v@.len(),
            s@ == v@.take(i as int),
        decreases v@.len() - i,
    {
        s.push(v[i]);
        i = i + 1;
    }
    s
}

/// `label` followed by `value`.
pub fn labelled(label: &str, value: &String) -> (text: String)
    ensures
        text@ == label@ + value@,
{
    let mut text = label.to_owned();
    text.append(value.as_str());
    text
}

/// A copy of an optional string.
pub fn copy_opt(o: &Option<String>) -> (r: Option<String>)
    ensures
        r == *o,
{
    match o {
        Some(s) => Some(s.clone()),
        None => None,
    }
}

/// A copy of a vector of strings.
pub fn copy_strings(v: &Vec<String>) -> (r: Vec<String>)
    ensures
        r@ == v@,
{
    let mut r: Vec<String> = Vec::new();
    let mut i: usize = 0;
    while i < v.len()
        invariant
            i <= v@.len(),
            r@ == v@.take(i as int),
        decreases v@.len() - i,
    {
        r.push(v[i].clone());
        i = i + 1;
    }
    r
}

// ---------------------------------------------------------------------------
// Text for debugging
// ---------------------------------------------------------------------------

/// How the standard library writes the text `s` for debugging: in double quotes, with
/// the characters that need it escaped.
pub uninterp spec fn debug_quoted(s: Seq<char>) -> Seq<char>;

/// The `Debug` text of `str`, named by [`debug_quoted`]. The name says that the text
/// depends on the characters alone, and nothing else of it.
#[verifier::external_body]
pub(crate) fn quoted(s: &str) -> (text: String)
    ensures
        text@ == debug_quoted(s@),
{
    format!("{:?}", s)
}

// ---------------------------------------------------------------------------
// Prefixes
// ---------------------------------------------------------------------------

/// Whether `p` is a prefix of the characters of `v` that start at `at`.
pub fn has_prefix_at(v: &Vec<char>, at: usize, p: &Vec<char>) -> (b: bool)
    requires
        at <= v@.len(),
    ensures
        b == p@.is_prefix_of(v@.skip(at as int)),
{
    if p.len() > v.len() - at {
        return false;
    }
    let mut i: usize = 0;
    while i < p.len()
        invariant
            v@.len() == v.len(),
            at <= v@.len(),
            i <= p@.len() <= v@.len() - at,
            forall|k: int| 0 <= k < i ==> p@[k] == v@.skip(at as int)[k],
        decreases p@.len() - i,
    {
        if p[i] != v[at + i] {
            assert(p@[i as int] != v@.skip(at as int)[i as int]);
            assert(p@[i as int] != v@.skip(at as int).take(p@.len() as int)[i as int]);
            return false;
        }
        i = i + 1;
    }
    assert(p@ =~= v@.skip(at as int).take(p@.len() as int));
    true
}

/// Whether two texts have the same characters.
pub fn same_text(a: &str, b: &str) -> (r: bool)
    ensures
        r == (a@ == b@),
{
    let x = chars_of(a);
    let y = chars_of(b);
    if x.len() != y.len() {
        return false;
    }
    let p = has_prefix_at(&x, 0, &y);
    proof {
        assert(x@.skip(0) =~= x@);
        assert(x@.take(y@.len() as int) =~= x@);
    }
    p
}

/// Whether the first character of `s` is `c`.
pub fn starts_with_char(s: &str, c: char) -> (r: bool)
    ensures
        r == (s@.len() > 0 && s@[0] == c),
{
    let v = chars_of(s);
    v.len() > 0 && v[0] == c
}

// ---------------------------------------------------------------------------
// White space
// ---------------------------------------------------------------------------

/// The characters with the Unicode property `White_Space`.
pub open spec fn is_space(c: char) -> bool {
    ||| '\u{9}' <= c <= '\u{d}'
    ||| c == '\u{20}'
    ||| c == '\u{85}'
    ||| c == '\u{a0}'
    ||| c == '\u{1680}'
    ||| '\u{2000}' <= c <= '\u{200a}'
    ||| '\u{2028}' <= c <= '\u{2029}'
    ||| c == '\u{202f}'
    ||| c == '\u{205f}'
    ||| c == '\u{3000}'
}

/// Whether `c` is white space.
pub fn is_whitespace(c: char) -> (b: bool)
    ensures
        b == is_space(c),
{
    ('\u{9}' <= c && c <= '\u{d}') || c == '\u{20}' || c == '\u{85}' || c == '\u{a0}' || c
        == '\u{1680}' || ('\u{2000}' <= c && c <= '\u{200a}') || ('\u{2028}' <= c && c
        <= '\u{2029}') || c == '\u{202f}' || c == '\u{205f}' || c == '\u{3000}'
}

/// `s` without the white space it begins with.
pub open spec fn trim_start_of(s: Seq<char>) -> Seq<char>
    decreases s.len(),
{
    if s.len() > 0 && is_space(s[0]) {
        trim_start_of(s.drop_first())
    } else {
        s
    }
}

/// `s` without the white space it ends with.
pub open spec fn trim_end_of(s: Seq<char>) -> Seq<char>
    decreases s.len(),
{
    if s.len() > 0 && is_space(s.last()) {
        trim_end_of(s.drop_last())
    } else {
        s
    }
}

/// `s` without the white space at its two ends.
pub open spec fn trim_of(s: Seq<char>) -> Seq<char> {
    trim_end_of(trim_start_of(s))
}

/// `v` without the white space it begins with.
pub fn trim_start(v: &Vec<char>) -> (r: Vec<char>)
    ensures
        r@ == trim_start_of(v@),
{
    let mut i: usize = 0;
    assert(v@.skip(0) =~= v@);
    while i < v.len() && is_whitespace(v[i])
        invariant
            i <= v@.len(),
            trim_start_of(v@) == trim_start_of(v@.skip(i as int)),
        decreases v@.len() - i,
    {
        assert(v@.skip(i as int).drop_first() =~= v@.skip(i + 1));
        i = i + 1;
    }
    assert(v@.subrange(i as int, v@.len() as int) =~= v@.skip(i as int));
    slice_of(v, i, v.len())
}

/// `v` without the white space it ends with.
pub fn trim_end(v: &Vec<char>) -> (r: Vec<char>)
    ensures
        r@ == trim_end_of(v@),
{
    let mut n: usize = v.len();
    assert(v@.take(n as int) =~= v@);
    while n > 0 && is_whitespace(v[n - 1])
        invariant
            n <= v@.len(),
            trim_end_of(v@) == trim_end_of(v@.take(n as int)),
        decreases n,
    {
        assert(v@.take(n as int).drop_last() =~= v@.take(n - 1));
        n = n - 1;
    }
    assert(v@.subrange(0, n as int) =~= v@.take(n as int));
    slice_of(v, 0, n)
}

/// `v` without the white space at its two ends.
pub fn trim(v: &Vec<char>) -> (r: Vec<char>)
    ensures
        r@ == trim_of(v@),
{
    trim_end(&trim_start(v))
}

/// `s` without the white space at its two ends.
pub fn trim_str(s: &str) -> (r: String)
    ensures
        r@ == trim_of(s@),
{
    string_of(&trim(&chars_of(s)))
}

// ---------------------------------------------------------------------------
// Lines
// ---------------------------------------------------------------------------

/// The position of the first line feed in `s`, or the length of `s` if it has none.
pub open spec fn line_end(s: Seq<char>) -> nat
    decreases s.len(),
{
    if s.len() == 0 || s[0] == '\n' {
        0
    } else {
        1 + line_end(s.drop_first())
    }
}

/// `s` without the carriage return it ends with, if it ends with one.
pub open spec fn without_cr(s: Seq<char>) -> Seq<char> {
    if s.len() > 0 && s.last() == '\r' {
        s.drop_last()
    } else {
        s
    }
}

/// The lines of `s`. A line ends with a line feed or with a carriage return and a
/// line feed, neither of which belongs to it; the last line may lack its ending.
pub open spec fn lines_of(s: Seq<char>) -> Seq<Seq<char>>
    decreases s.len(),
{
    if s.len() == 0 {
        Seq::empty()
    } else {
        let n = line_end(s) as int;
        if n >= s.len() {
            seq![s]
        } else {
            seq![without_cr(s.take(n))] + lines_of(s.skip(n + 1))
        }
    }
}

/// A text has its first line feed where nothing before is one.
pub proof fn lemma_line_end_at(s: Seq<char>, n: int)
    requires
        0 <= n <= s.len(),
        forall|k: int| 0 <= k < n ==> s[k] != '\n',
        n < s.len() ==> s[n] == '\n',
    ensures
        line_end(s) == n,
    decreases n,
{
    if n > 0 {
        assert forall|k: int| 0 <= k < n - 1 implies s.drop_first()[k] != '\n' by {
            assert(s.drop_first()[k] == s[k + 1]);
        }
        lemma_line_end_at(s.drop_first(), n - 1);
    }
}

/// The lines of `v`.
pub fn lines(v: &Vec<char>) -> (r: Vec<Vec<char>>)
    ensures
        char_texts(r@) == lines_of(v@),
{
    let mut r: Vec<Vec<char>> = Vec::new();
    let mut start: usize = 0;
    let mut i: usize = 0;
    proof {
        assert(v@.skip(0) =~= v@);
        assert(char_texts(r@) + lines_of(v@) =~= lines_of(v@));
    }
    while i < v.len()
        invariant
            start <= i <= v@.len(),
            forall|k: int| start <= k < i ==> v@[k] != '\n',
            char_texts(r@) + lines_of(v@.skip(start as int)) == lines_of(v@),
        decreases v@.len() - i,
    {
        if v[i] == '\n' {
            let ghost rest = v@.skip(start as int);
            let ghost before = r@;
            let mut end: usize = i;
            if end > start && v[end - 1] == '\r' {
                end = end - 1;
            }
            let line = slice_of(v, start, end);
            proof {
                lemma_line_end_at(rest, i - start);
                assert(rest.skip(i - start + 1) =~= v@.skip(i + 1));
                assert(without_cr(rest.take(i - start)) =~= line@);
            }
            r.push(line);
            proof {
                assert(char_texts(r@) =~= char_texts(before) + seq![line@]);
                assert(char_texts(r@) + lines_of(v@.skip(i + 1)) =~= char_texts(before) + (seq![
                    line@,
                ] + lines_of(v@.skip(i + 1))));
            }
            start = i + 1;
        }
        i = i + 1;
    }
    let ghost rest = v@.skip(start as int);
    if start < v.len() {
        let ghost before = r@;
        let line = slice_of(v, start, v.len());
        proof {
            lemma_line_end_at(rest, rest.len() as int);
            assert(line@ =~= rest);
        }
        r.push(line);
        proof {
            assert(char_texts(r@) =~= char_texts(before) + seq![line@]);
        }
    } else {
        proof {
            assert(char_texts(r@) + lines_of(rest) =~= char_texts(r@));
        }
    }
    r
}

// ---------------------------------------------------------------------------
// Replacing and joining
// ---------------------------------------------------------------------------

/// `s` with every occurrence of the character `c` replaced by `with`.
pub open spec fn replace_char_of(s: Seq<char>, c: char, with: Seq<char>) -> Seq<char>
    decreases s.len(),
{
    if s.len() == 0 {
        Seq::empty()
    } else {
        replace_char_of(s.drop_last(), c, with) + (if s.last() == c {
            with
        } else {
            seq![s.last()]
        })
    }
}

/// `s` with every occurrence of the character `c` replaced by `with`.
pub fn replace_char(s: &str, c: char, with: &str) -> (r: String)
    ensures
        r@ == replace_char_of(s@, c, with@),
{
    let v = chars_of(s);
    let mut r: String = String::new();
    let mut i: usize = 0;
    while i < v.len()
        invariant
            i <= v@.len(),
            r@ == replace_char_of(v@.take(i as int), c, with@),
        decreases v@.len() - i,
    {
        proof {
            assert(v@.take(i + 1).drop_last() =~= v@.take(i as int));
            assert(v@.take(i + 1).last() == v@[i as int]);
        }
        if v[i] == c {
            r.append(with);
        } else {
            let ghost before = r@;
            r.push(v[i]);
            assert(r@ =~= before + seq![v@[i as int]]);
        }
        i = i + 1;
    }
    assert(v@.take(v@.len() as int) =~= v@);
    r
}

/// `s` with the occurrences of `pat`, taken from the left and not overlapping,
/// replaced by `with`.
pub open spec fn replace_of(s: Seq<char>, pat: Seq<char>, with: Seq<char>) -> Seq<char>
    decreases s.len(),
{
    if pat.len() == 0 || s.len() == 0 {
        s
    } else if pat.is_prefix_of(s) {
        with + replace_of(s.skip(pat.len() as int), pat, with)
    } else {
        seq![s[0]] + replace_of(s.drop_first(), pat, with)
    }
}

/// `s` with the occurrences of `pat`, taken from the left and not overlapping,
/// replaced by `with`.
pub fn replace(s: &str, pat: &str, with: &str) -> (r: String)
    requires
        pat@.len() > 0,
    ensures
        r@ == replace_of(s@, pat@, with@),
{
    let v = chars_of(s);
    let p = chars_of(pat);
    let mut r: String = String::new();
    let mut i: usize = 0;
    proof {
        assert(v@.skip(0) =~= v@);
        assert(r@ + replace_of(v@, p@, with@) =~= replace_of(v@, p@, with@));
    }
    while i < v.len()
        invariant
            i <= v@.len(),
            p@.len() > 0,
            r@ + replace_of(v@.skip(i as int), p@, with@) == replace_of(v@, p@, with@),
        decreases v@.len() - i,
    {
        let ghost before = r@;
        let ghost rest = v@.skip(i as int);
        if has_prefix_at(&v, i, &p) {
            r.append(with);
            proof {
                assert(rest.skip(p@.len() as int) =~= v@.skip(i + p@.len()));
                assert(before + (with@ + replace_of(rest.skip(p@.len() as int), p@, with@)) =~= r@
                    + replace_of(v@.skip(i + p@.len()), p@, with@));
            }
            i = i + p.len();
        } else {
            r.push(v[i]);
            proof {
                assert(rest.drop_first() =~= v@.skip(i + 1));
                assert(before + (seq![rest[0]] + replace_of(rest.drop_first(), p@, with@)) =~= r@
                    + replace_of(v@.skip(i + 1), p@, with@));
            }
            i = i + 1;
        }
    }
    assert(r@ + replace_of(v@.skip(i as int), p@, with@) =~= r@);
    r
}

/// In a text that ends in `pat` and holds it nowhere else, only the end is replaced.
pub proof fn lemma_replace_end(s: Seq<char>, pat: Seq<char>, with: Seq<char>)
    requires
        pat.len() > 0,
        forall|i: int| 0 <= i < s.len() ==> !pat.is_prefix_of(#[trigger] (s + pat).skip(i)),
    ensures
        replace_of(s + pat, pat, with) == s + with,
    decreases s.len(),
{
    let all = s + pat;
    assert(all.skip(0) =~= all);
    if s.len() == 0 {
        assert(all =~= pat);
        assert(pat.is_prefix_of(all)) by {
            assert(all.take(pat.len() as int) =~= pat);
        }
        let rest = all.skip(pat.len() as int);
        assert(rest.len() == 0);
        assert(replace_of(rest, pat, with) =~= Seq::<char>::empty());
        assert(replace_of(all, pat, with) =~= s + with);
    } else {
        let tail = s.drop_first();
        assert(all.drop_first() =~= tail + pat);
        assert forall|i: int| 0 <= i < tail.len() implies !pat.is_prefix_of(
            #[trigger] (tail + pat).skip(i),
        ) by {
            assert((tail + pat).skip(i) =~= all.skip(i + 1));
        }
        lemma_replace_end(tail, pat, with);
        assert(replace_of(all, pat, with) =~= s + with);
    }
}

/// The texts of `parts`, in order, with `sep` between each two neighbours.
pub open spec fn join_of(parts: Seq<Seq<char>>, sep: Seq<char>) -> Seq<char>
    decreases parts.len(),
{
    if parts.len() == 0 {
        Seq::empty()
    } else if parts.len() == 1 {
        parts[0]
    } else {
        join_of(parts.drop_last(), sep) + sep + parts.last()
    }
}

/// The texts of `parts`, in order, with `sep` between each two neighbours.
pub fn join(parts: &Vec<String>, sep: &str) -> (r: String)
    ensures
        r@ == join_of(texts(parts@), sep@),
{
    let mut r: String = String::new();
    let mut i: usize = 0;
    while i < parts.len()
        invariant
            i <= parts@.len(),
            r@ == join_of(texts(parts@).take(i as int), sep@),
        decreases parts@.len() - i,
    {
        let ghost all = texts(parts@);
        proof {
            assert(all.take(i + 1).drop_last() =~= all.take(i as int));
            assert(all.take(i + 1).last() == parts@[i as int]@);
        }
        if i > 0 {
            r.append(sep);
        }
        r.append(parts[i].as_str());
        proof {
            if i == 0 {
                assert(r@ =~= all.take(1)[0]);
            }
        }
        i = i + 1;
    }
    assert(texts(parts@).take(parts@.len() as int) =~= texts(parts@));
    r
}

// ---------------------------------------------------------------------------
// ASCII case
// ---------------------------------------------------------------------------

/// `c` with an upper case ASCII letter made lower case.
pub open spec fn lower_of(c: char) -> char {
    if 'A' <= c <= 'Z' {
        ((c as u32) + 32) as char
    } else {
        c
    }
}

/// Whether two texts are equal when the case of ASCII letters does not count.
pub open spec fn equal_ignoring_case(a: Seq<char>, b: Seq<char>) -> bool {
    &&& a.len() == b.len()
    &&& forall|i: int| 0 <= i < a.len() ==> lower_of(#[trigger] a[i]) == lower_of(b[i])
}

fn lower(c: char) -> (r: char)
    ensures
        r == lower_of(c),
{
    if 'A' <= c && c <= 'Z' {
        (c as u8 + 32) as char
    } else {
        c
    }
}

/// Whether two texts are equal when the case of ASCII letters does not count.
pub fn eq_ignore_ascii_case(a: &Vec<char>, b: &Vec<char>) -> (r: bool)
    ensures
        r == equal_ignoring_case(a@, b@),
{
    if a.len() != b.len() {
        return false;
    }
    let mut i: usize = 0;
    while i < a.len()
        invariant
            i <= a@.len(),
            a@.len() == b@.len(),
            forall|k: int| 0 <= k < i ==> lower_of(#[trigger] a@[k]) == lower_of(b@[k]),
        decreases a@.len() - i,
    {
        if lower(a[i]) != lower(b[i]) {
            assert(lower_of(a@[i as int]) != lower_of(b@[i as int]));
            return false;
        }
        i = i + 1;
    }
    true
}

// ---------------------------------------------------------------------------
// Laws
// ---------------------------------------------------------------------------

/// Blanks, tabs and line endings are white space, and no visible ASCII character is.
pub proof fn law_visible_characters_are_no_white_space(c: char)
    ensures
        c == ' ' || c == '\t' || c == '\n' || c == '\r' ==> is_space(c),
        '!' <= c <= '~' ==> !is_space(c),
{
}

proof fn lemma_trim_start(s: Seq<char>)
    ensures
        ({
            let t = trim_start_of(s);
            &&& t.len() <= s.len()
            &&& t == s.skip(s.len() - t.len())
            &&& forall|i: int| 0 <= i < s.len() - t.len() ==> is_space(#[trigger] s[i])
            &&& t.len() > 0 ==> !is_space(t[0])
        }),
    decreases s.len(),
{
    if s.len() > 0 && is_space(s[0]) {
        let rest = s.drop_first();
        lemma_trim_start(rest);
        let t = trim_start_of(s);
        assert(rest.skip(rest.len() - t.len()) =~= s.skip(s.len() - t.len()));
        assert forall|i: int| 0 <= i < s.len() - t.len() implies is_space(#[trigger] s[i]) by {
            if i > 0 {
                assert(s[i] == rest[i - 1]);
            }
        }
    } else {
        assert(s.skip(0) =~= s);
    }
}

proof fn lemma_trim_end(s: Seq<char>)
    ensures
        ({
            let t = trim_end_of(s);
            &&& t.len() <= s.len()
            &&& t == s.take(t.len() as int)
            &&& forall|i: int| t.len() <= i < s.len() ==> is_space(#[trigger] s[i])
            &&& t.len() > 0 ==> !is_space(t.last())
        }),
    decreases s.len(),
{
    if s.len() > 0 && is_space(s.last()) {
        let rest = s.drop_last();
        lemma_trim_end(rest);
        let t = trim_end_of(s);
        assert(rest.take(t.len() as int) =~= s.take(t.len() as int));
        assert forall|i: int| t.len() <= i < s.len() implies is_space(#[trigger] s[i]) by {
            if i < s.len() - 1 {
                assert(s[i] == rest[i]);
            }
        }
    } else {
        assert(s.take(s.len() as int) =~= s);
    }
}

/// Trimming takes the white space off both ends and nothing else: what is left begins and ends
/// with something else, stands in the text as it is, and only white space stands around it.
pub proof fn law_trimming_takes_white_space_off_the_ends(s: Seq<char>)
    ensures
        ({
            let t = trim_of(s);
            &&& t.len() > 0 ==> !is_space(t[0]) && !is_space(t.last())
            &&& exists|k: int|
                0 <= k <= s.len() - t.len() && #[trigger] s.subrange(k, k + t.len()) == t && (
                forall|i: int|
                    0 <= i < s.len() && !(k <= i < k + t.len()) ==> is_space(#[trigger] s[i]))
        }),
{
    let a = trim_start_of(s);
    let t = trim_of(s);
    lemma_trim_start(s);
    lemma_trim_end(a);
    let k = s.len() - a.len();
    assert(s.subrange(k, k + t.len()) =~= t);
    assert forall|i: int| 0 <= i < s.len() && !(k <= i < k + t.len()) implies is_space(
        #[trigger] s[i],
    ) by {
        if i >= k {
            assert(s[i] == a[i - k]);
        }
    }
}

/// A line ends where its line feed stands, and does not hold it nor the carriage return before
/// it; the lines after it are those of what follows. A text without a line feed is one line, and
/// an empty text has none.
pub proof fn law_text_is_split_at_line_feeds(line: Seq<char>, rest: Seq<char>)
    requires
        forall|i: int| 0 <= i < line.len() ==> line[i] != '\n',
    ensures
        lines_of(Seq::empty()).len() == 0,
        line.len() > 0 ==> lines_of(line) == seq![line],
        ({
            let kept = if line.len() > 0 && line.last() == '\r' {
                line.drop_last()
            } else {
                line
            };
            lines_of(line + seq!['\n'] + rest) == seq![kept] + lines_of(rest)
        }),
{
    let all = line + seq!['\n'] + rest;
    assert forall|k: int| 0 <= k < line.len() implies all[k] != '\n' by {
        assert(all[k] == line[k]);
    }
    lemma_line_end_at(all, line.len() as int);
    lemma_line_end_at(line, line.len() as int);
    assert(all.take(line.len() as int) =~= line);
    assert(all.skip(line.len() as int + 1) =~= rest);
}

/// Replacing a character replaces every one of its occurrences and nothing else, whatever
/// stands before and after.
pub proof fn law_replacing_a_character(
    s: Seq<char>,
    more: Seq<char>,
    c: char,
    with: Seq<char>,
)
    ensures
        replace_char_of(Seq::empty(), c, with).len() == 0,
        replace_char_of(seq![c], c, with) == with,
        forall|d: char| d != c ==> #[trigger] replace_char_of(seq![d], c, with) == seq![d],
        replace_char_of(s + more, c, with) == replace_char_of(s, c, with) + replace_char_of(
            more,
            c,
            with,
        ),
    decreases more.len(),
{
    reveal_with_fuel(replace_char_of, 2);
    assert(seq![c].drop_last() =~= Seq::<char>::empty());
    assert(replace_char_of(seq![c], c, with) =~= with);
    assert forall|d: char| d != c implies #[trigger] replace_char_of(seq![d], c, with) == seq![d] by {
        assert(seq![d].drop_last() =~= Seq::<char>::empty());
        assert(replace_char_of(seq![d], c, with) =~= seq![d]);
    }
    if more.len() == 0 {
        assert(s + more =~= s);
        assert(replace_char_of(s, c, with) + replace_char_of(more, c, with) =~= replace_char_of(
            s,
            c,
            with,
        ));
    } else {
        law_replacing_a_character(s, more.drop_last(), c, with);
        assert((s + more).drop_last() =~= s + more.drop_last());
        assert(replace_char_of(s + more, c, with) =~= replace_char_of(s, c, with)
            + replace_char_of(more, c, with));
    }
}

/// Replacing a pattern puts the other text in the place of its first occurrence, leaves what
/// stands before it alone, and goes on behind it; a text without the pattern stays as it is.
pub proof fn law_replacing_a_pattern(
    before: Seq<char>,
    pat: Seq<char>,
    with: Seq<char>,
    after: Seq<char>,
)
    requires
        pat.len() > 0,
        forall|i: int|
            0 <= i < before.len() ==> !pat.is_prefix_of(#[trigger] (before + pat + after).skip(i)),
    ensures
        replace_of(before + pat + after, pat, with) == before + with + replace_of(after, pat, with),
        replace_of(Seq::empty(), pat, with).len() == 0,
    decreases before.len(),
{
    let all = before + pat + after;
    assert(all.skip(0) =~= all);
    if before.len() == 0 {
        assert(all =~= pat + after);
        assert(pat =~= all.subrange(0, pat.len() as int));
        assert(all.skip(pat.len() as int) =~= after);
        assert(replace_of(all, pat, with) =~= before + with + replace_of(after, pat, with));
    } else {
        let tail = before.drop_first();
        assert(all.drop_first() =~= tail + pat + after);
        assert forall|i: int| 0 <= i < tail.len() implies !pat.is_prefix_of(
            #[trigger] (tail + pat + after).skip(i),
        ) by {
            assert((tail + pat + after).skip(i) =~= all.skip(i + 1));
        }
        law_replacing_a_pattern(tail, pat, with, after);
        assert(replace_of(all, pat, with) =~= before + with + replace_of(after, pat, with));
    }
}

/// A text without the pattern stays as it is.
pub proof fn law_replacing_what_is_not_there(s: Seq<char>, pat: Seq<char>, with: Seq<char>)
    requires
        forall|i: int| 0 <= i < s.len() ==> !pat.is_prefix_of(#[trigger] s.skip(i)),
    ensures
        replace_of(s, pat, with) == s,
    decreases s.len(),
{
    if s.len() > 0 {
        assert(s.skip(0) =~= s);
        let tail = s.drop_first();
        assert forall|i: int| 0 <= i < tail.len() implies !pat.is_prefix_of(
            #[trigger] tail.skip(i),
        ) by {
            assert(tail.skip(i) =~= s.skip(i + 1));
        }
        law_replacing_what_is_not_there(tail, pat, with);
        assert(replace_of(s, pat, with) =~= s);
    }
}

/// Joining puts the separator between two neighbours and nowhere else: one part alone stays as
/// it is, and one part more comes behind a separator.
pub proof fn law_joining_separates_neighbours(
    parts: Seq<Seq<char>>,
    part: Seq<char>,
    sep: Seq<char>,
)
    ensures
        join_of(Seq::empty(), sep).len() == 0,
        join_of(seq![part], sep) == part,
        parts.len() > 0 ==> join_of(parts.push(part), sep) == join_of(parts, sep) + sep + part,
{
    assert(parts.push(part).drop_last() =~= parts);
}

/// Two texts are equal but for the case of ASCII letters exactly when they have the same length
/// and at each place the same character or the two cases of one letter.
pub proof fn law_case_of_letters_does_not_count(a: Seq<char>, b: Seq<char>)
    ensures
        equal_ignoring_case(a, b) <==> (a.len() == b.len() && (forall|i: int|
            0 <= i < a.len() ==> ((#[trigger] a[i]) == b[i] || ('A' <= a[i] <= 'Z' && b[i] as int
                == a[i] as int + 32) || ('A' <= b[i] <= 'Z' && a[i] as int == b[i] as int + 32)))),
{
    assert forall|x: char, y: char|
        #![trigger lower_of(x), lower_of(y)]
        lower_of(x) == lower_of(y) <==> (x == y || ('A' <= x <= 'Z' && y as int == x as int + 32)
            || ('A' <= y <= 'Z' && x as int == y as int + 32)) by {}
    if equal_ignoring_case(a, b) {
        assert forall|i: int| 0 <= i < a.len() implies ((#[trigger] a[i]) == b[i] || ('A' <= a[i]
            <= 'Z' && b[i] as int == a[i] as int + 32) || ('A' <= b[i] <= 'Z' && a[i] as int
            == b[i] as int + 32)) by {
            assert(lower_of(a[i]) == lower_of(b[i]));
        }
    }
}

} // verus!

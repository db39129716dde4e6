//! Reading `Key: Value` and `Key = Value` lines from what scripts write.

use vstd::prelude::*;

use crate::text::{self, chars_of, has_prefix_at, lines, slice_of, string_of, trim, trim_start};

verus! {

/// The value that `line` gives for `key`: the key at its start, a colon or an equals sign,
/// and the value, with any white space around the three. An empty value does not count.
pub open spec fn line_value(line: Seq<char>, key: Seq<char>) -> Option<Seq<char>> {
    let trimmed = text::trim_of(line);
    let rest = text::trim_start_of(trimmed.skip(key.len() as int));
    let value = text::trim_of(rest.skip(1));
    if key.is_prefix_of(trimmed) && rest.len() > 0 && (rest[0] == ':' || rest[0] == '=')
        && value.len() > 0 {
        Some(value)
    } else {
        None
    }
}

/// The value of the first line that gives one for `key`.
pub open spec fn first_value(lines: Seq<Seq<char>>, key: Seq<char>) -> Option<Seq<char>>
    decreases lines.len(),
{
    if lines.len() == 0 {
        None
    } else if line_value(lines[0], key) is Some {
        line_value(lines[0], key)
    } else {
        first_value(lines.drop_first(), key)
    }
}

/// The value that `stdout` gives for `key`.
pub open spec fn value_in(stdout: Seq<char>, key: Seq<char>) -> Option<Seq<char>> {
    first_value(text::lines_of(stdout), key)
}

fn value_of_line(line: &Vec<char>, key: &Vec<char>) -> (value: Option<Vec<char>>)
    ensures
        match value {
            Some(v) => line_value(line@, key@) == Some(v@),
            None => line_value(line@, key@) is None,
        },
{
    let trimmed = trim(line);
    assert(trimmed@.skip(0) =~= trimmed@);
    if !has_prefix_at(&trimmed, 0, key) {
        return None;
    }
    let after_key = slice_of(&trimmed, key.len(), trimmed.len());
    assert(after_key@ =~= trimmed@.skip(key@.len() as int));
    let rest = trim_start(&after_key);
    if rest.len() == 0 || (rest[0] != ':' && rest[0] != '=') {
        return None;
    }
    let after_mark = slice_of(&rest, 1, rest.len());
    assert(after_mark@ =~= rest@.skip(1));
    let value = trim(&after_mark);
    if value.len() == 0 {
        None
    } else {
        Some(value)
    }
}

/// Extract a value from script stdout matching `"Key: Value"` or `"Key = Value"`.
pub fn extract_detail(stdout: &str, key: &str) -> (value: Option<String>)
    ensures
        text::opt_text(value) == value_in(stdout@, key@),
{
    let all = lines(&chars_of(stdout));
    let key_chars = chars_of(key);
    let ghost texts = text::char_texts(all@);
    let mut i: usize = 0;
    assert(texts.skip(0) =~= texts);
    while i < all.len()
        invariant
            texts == text::char_texts(all@),
            texts == text::lines_of(stdout@),
            key_chars@ == key@,
            i <= all@.len(),
            first_value(texts.skip(i as int), key@) == value_in(stdout@, key@),
        decreases all@.len() - i,
    {
        assert(texts.skip(i as int).drop_first() =~= texts.skip(i + 1));
        assert(texts.skip(i as int)[0] == all@[i as int]@);
        if let Some(v) = value_of_line(&all[i], &key_chars) {
            return Some(string_of(&v));
        }
        i = i + 1;
    }
    None
}

// ---------------------------------------------------------------------------
// Laws
// ---------------------------------------------------------------------------

/// Whether `s` is white space only.
pub open spec fn all_space(s: Seq<char>) -> bool {
    forall|i: int| 0 <= i < s.len() ==> text::is_space(#[trigger] s[i])
}

proof fn lemma_trim_start_skips(pad: Seq<char>, s: Seq<char>)
    requires
        all_space(pad),
        s.len() > 0,
        !text::is_space(s[0]),
    ensures
        text::trim_start_of(pad + s) == s,
    decreases pad.len(),
{
    if pad.len() == 0 {
        assert(pad + s =~= s);
    } else {
        assert((pad + s)[0] == pad[0]);
        assert((pad + s).drop_first() =~= pad.drop_first() + s);
        lemma_trim_start_skips(pad.drop_first(), s);
    }
}

proof fn lemma_trim_end_skips(s: Seq<char>, pad: Seq<char>)
    requires
        all_space(pad),
        s.len() > 0,
        !text::is_space(s.last()),
    ensures
        text::trim_end_of(s + pad) == s,
    decreases pad.len(),
{
    if pad.len() == 0 {
        assert(s + pad =~= s);
    } else {
        assert((s + pad).last() == pad.last());
        assert((s + pad).drop_last() =~= s + pad.drop_last());
        lemma_trim_end_skips(s, pad.drop_last());
    }
}

/// A line that names a key and its value gives the value back, whatever white space stands
/// around the key, the mark and the value.
pub proof fn law_line_gives_its_value_back(
    key: Seq<char>,
    mark: char,
    value: Seq<char>,
    pads: (Seq<char>, Seq<char>, Seq<char>, Seq<char>),
)
    requires
        key.len() > 0,
        !text::is_space(key[0]),
        mark == ':' || mark == '=',
        value.len() > 0,
        !text::is_space(value[0]),
        !text::is_space(value.last()),
        all_space(pads.0),
        all_space(pads.1),
        all_space(pads.2),
        all_space(pads.3),
    ensures
        line_value(pads.0 + key + pads.1 + seq![mark] + pads.2 + value + pads.3, key) == Some(
            value,
        ),
{
    let line = pads.0 + key + pads.1 + seq![mark] + pads.2 + value + pads.3;
    let inner = key + pads.1 + seq![mark] + pads.2 + value;
    assert(line =~= pads.0 + (inner + pads.3));
    assert(!text::is_space((inner + pads.3)[0]));
    lemma_trim_start_skips(pads.0, inner + pads.3);
    assert(inner.last() == value.last());
    lemma_trim_end_skips(inner, pads.3);
    assert(text::trim_of(line) == inner);
    assert(key =~= inner.subrange(0, key.len() as int));
    let marked = seq![mark] + (pads.2 + value);
    assert(inner.skip(key.len() as int) =~= pads.1 + marked);
    assert(marked[0] == mark);
    lemma_trim_start_skips(pads.1, marked);
    assert(marked.skip(1) =~= pads.2 + value);
    lemma_trim_start_skips(pads.2, value);
    lemma_trim_end_skips(value, Seq::empty());
    assert(value + Seq::empty() =~= value);
}

/// The first line with a value for the key decides.
pub proof fn law_first_line_with_a_value_decides(
    lines: Seq<Seq<char>>,
    key: Seq<char>,
    k: int,
)
    requires
        0 <= k < lines.len(),
        forall|i: int| 0 <= i < k ==> line_value(#[trigger] lines[i], key) is None,
        line_value(lines[k], key) is Some,
    ensures
        first_value(lines, key) == line_value(lines[k], key),
    decreases k,
{
    if k > 0 {
        let rest = lines.drop_first();
        assert(line_value(lines[0], key) is None);
        assert forall|i: int| 0 <= i < k - 1 implies line_value(#[trigger] rest[i], key) is None by {
            assert(rest[i] == lines[i + 1]);
        }
        law_first_line_with_a_value_decides(rest, key, k - 1);
    }
}

/// What a script writes as a line with a key and its value is read back from its output,
/// whatever follows.
pub proof fn law_written_value_is_read_back(
    key: Seq<char>,
    mark: char,
    value: Seq<char>,
    pads: (Seq<char>, Seq<char>, Seq<char>, Seq<char>),
    rest: Seq<char>,
)
    requires
        key.len() > 0,
        !text::is_space(key[0]),
        mark == ':' || mark == '=',
        value.len() > 0,
        !text::is_space(value[0]),
        !text::is_space(value.last()),
        all_space(pads.0),
        all_space(pads.1),
        all_space(pads.2),
        all_space(pads.3),
        !(pads.0 + key + pads.1 + seq![mark] + pads.2 + value + pads.3).contains('\n'),
    ensures
        value_in(
            pads.0 + key + pads.1 + seq![mark] + pads.2 + value + pads.3 + seq!['\n'] + rest,
            key,
        ) == Some(value),
{
    let start = pads.0 + key + pads.1 + seq![mark] + pads.2 + value;
    let line = start + pads.3;
    let out = line + seq!['\n'] + rest;
    assert forall|k: int| 0 <= k < line.len() implies out[k] != '\n' by {
        assert(out[k] == line[k]);
        if line[k] == '\n' {
            assert(line.contains('\n'));
        }
    }
    text::lemma_line_end_at(out, line.len() as int);
    assert(out.take(line.len() as int) =~= line);
    let pad = if pads.3.len() > 0 && pads.3.last() == '\r' {
        pads.3.drop_last()
    } else {
        pads.3
    };
    assert(text::without_cr(line) =~= start + pad) by {
        if pads.3.len() == 0 {
            assert(line.last() == value.last());
        } else {
            assert(line.last() == pads.3.last());
        }
    }
    law_line_gives_its_value_back(key, mark, value, (pads.0, pads.1, pads.2, pad));
    let lines = text::lines_of(out);
    assert(lines[0] == text::without_cr(line));
}

/// A line has a value for a key exactly when, without the white space around it, it begins with
/// the key, then has a colon or an equals sign with at most white space before it, and something
/// other than white space behind it; that is the value.
pub proof fn law_only_marked_lines_have_values(line: Seq<char>, key: Seq<char>, value: Seq<char>)
    ensures
        line_value(line, key) == Some(value) <==> ({
            let t = text::trim_of(line);
            &&& key.is_prefix_of(t)
            &&& value.len() > 0
            &&& exists|k: int|
                key.len() <= k < t.len() && ((#[trigger] t[k]) == ':' || t[k] == '=') && all_space(
                    t.subrange(key.len() as int, k),
                ) && value == text::trim_of(t.skip(k + 1))
        }),
{
    let t = text::trim_of(line);
    let after = t.skip(key.len() as int);
    let rest = text::trim_start_of(after);
    if key.is_prefix_of(t) {
        lemma_trim_start_suffix(after);
        let k = t.len() - rest.len();
        if rest.len() > 0 {
            assert(rest[0] == t[k]);
            assert(t.skip(k + 1) =~= rest.skip(1));
            assert(t.subrange(key.len() as int, k) =~= after.take(after.len() - rest.len()));
        }
        if exists|k: int|
            key.len() <= k < t.len() && ((#[trigger] t[k]) == ':' || t[k] == '=') && all_space(
                t.subrange(key.len() as int, k),
            ) && value == text::trim_of(t.skip(k + 1)) {
            let j = choose|k: int|
                key.len() <= k < t.len() && ((#[trigger] t[k]) == ':' || t[k] == '=') && all_space(
                    t.subrange(key.len() as int, k),
                ) && value == text::trim_of(t.skip(k + 1));
            assert(after =~= t.subrange(key.len() as int, j) + t.skip(j));
            assert(t.skip(j)[0] == t[j]);
            lemma_trim_start_skips(t.subrange(key.len() as int, j), t.skip(j));
            assert(t.skip(j).skip(1) =~= t.skip(j + 1));
        }
    }
}

/// Trimming the start leaves the end of a text, behind white space only.
proof fn lemma_trim_start_suffix(s: Seq<char>)
    ensures
        ({
            let t = text::trim_start_of(s);
            &&& t.len() <= s.len()
            &&& t == s.skip(s.len() - t.len())
            &&& all_space(s.take(s.len() - t.len()))
        }),
    decreases s.len(),
{
    if s.len() > 0 && text::is_space(s[0]) {
        let rest = s.drop_first();
        lemma_trim_start_suffix(rest);
        let t = text::trim_start_of(s);
        assert(rest.skip(rest.len() - t.len()) =~= s.skip(s.len() - t.len()));
        let pad = s.take(s.len() - t.len());
        assert forall|i: int| 0 <= i < pad.len() implies text::is_space(#[trigger] pad[i]) by {
            if i > 0 {
                assert(pad[i] == rest.take(rest.len() - t.len())[i - 1]);
            }
        }
    } else {
        assert(s.skip(0) =~= s);
    }
}

/// The value in an output is that of its first line that has one, and there is none exactly when
/// no line has one.
pub proof fn law_output_is_searched_from_its_first_line(stdout: Seq<char>, key: Seq<char>)
    ensures
        forall|k: int|
            0 <= k < text::lines_of(stdout).len() && (forall|i: int|
                0 <= i < k ==> line_value(text::lines_of(stdout)[i], key) is None) && line_value(
                #[trigger] text::lines_of(stdout)[k],
                key,
            ) is Some ==> value_in(stdout, key) == line_value(text::lines_of(stdout)[k], key),
        value_in(stdout, key) is None <==> (forall|i: int|
            0 <= i < text::lines_of(stdout).len() ==> line_value(
                #[trigger] text::lines_of(stdout)[i],
                key,
            ) is None),
{
    let lines = text::lines_of(stdout);
    assert forall|k: int|
        0 <= k < lines.len() && (forall|i: int|
            0 <= i < k ==> line_value(lines[i], key) is None) && line_value(
            #[trigger] lines[k],
            key,
        ) is Some implies value_in(stdout, key) == line_value(lines[k], key) by {
        law_first_line_with_a_value_decides(lines, key, k);
    }
    lemma_no_value(lines, key);
}

proof fn lemma_no_value(lines: Seq<Seq<char>>, key: Seq<char>)
    ensures
        first_value(lines, key) is None <==> (forall|i: int|
            0 <= i < lines.len() ==> line_value(#[trigger] lines[i], key) is None),
    decreases lines.len(),
{
    if lines.len() > 0 {
        let rest = lines.drop_first();
        lemma_no_value(rest, key);
        if first_value(lines, key) is None {
            assert forall|i: int| 0 <= i < lines.len() implies line_value(#[trigger] lines[i], key) is None by {
                if i > 0 {
                    assert(rest[i - 1] == lines[i]);
                }
            }
        } else if line_value(lines[0], key) is None {
            let i = choose|i: int|
                0 <= i < rest.len() && !(line_value(#[trigger] rest[i], key) is None);
            assert(lines[i + 1] == rest[i]);
        }
    }
}

} // verus!

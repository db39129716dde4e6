//! The encoding of commands for `powershell.exe -EncodedCommand`: UTF-16 in little
//! endian byte order, then base64.

use vstd::arithmetic::div_mod;
use vstd::prelude::*;

use crate::text::chars_of;

verus! {

// ---------------------------------------------------------------------------
// UTF-16
// ---------------------------------------------------------------------------

/// The two bytes of the code unit `u`, the low one first.
pub open spec fn unit_bytes(u: int) -> Seq<u8> {
    seq![(u % 256) as u8, (u / 256) as u8]
}

/// The bytes of `c` in UTF-16: one code unit, or a surrogate pair for a character
/// above U+FFFF.
pub open spec fn char_bytes(c: char) -> Seq<u8> {
    let v = c as int;
    if v < 0x10000 {
        unit_bytes(v)
    } else {
        unit_bytes(0xD800 + (v - 0x10000) / 0x400) + unit_bytes(0xDC00 + (v - 0x10000) % 0x400)
    }
}

/// The bytes of `s` in UTF-16.
pub open spec fn utf16_of(s: Seq<char>) -> Seq<u8>
    decreases s.len(),
{
    if s.len() == 0 {
        Seq::empty()
    } else {
        char_bytes(s[0]) + utf16_of(s.drop_first())
    }
}

/// The text that UTF-16 bytes stand for.
pub open spec fn utf16_decoded(b: Seq<u8>) -> Seq<char>
    decreases b.len(),
{
    if b.len() < 2 {
        Seq::empty()
    } else {
        let u = b[0] + 256 * b[1];
        if 0xD800 <= u < 0xDC00 && b.len() >= 4 {
            let low = b[2] + 256 * b[3];
            seq![(0x10000 + (u - 0xD800) * 0x400 + (low - 0xDC00)) as char] + utf16_decoded(
                b.skip(4),
            )
        } else {
            seq![u as char] + utf16_decoded(b.skip(2))
        }
    }
}

proof fn lemma_scalar(c: char)
    ensures
        0 <= c as int <= 0x10FFFF,
        c as u32 == c as int,
        !(0xD800 <= c as int <= 0xDFFF),
{
}

fn push_unit(out: &mut Vec<u8>, u: u32)
    requires
        u < 0x10000,
    ensures
        final(out)@ == old(out)@ + unit_bytes(u as int),
{
    out.push((u % 256) as u8);
    out.push((u / 256) as u8);
    assert(out@ =~= old(out)@ + unit_bytes(u as int));
}

/// The bytes of `s` in UTF-16, little endian.
pub fn utf16_le(s: &str) -> (out: Vec<u8>)
    ensures
        out@ == utf16_of(s@),
{
    let v = chars_of(s);
    let mut out: Vec<u8> = Vec::new();
    let mut i: usize = 0;
    proof {
        assert(v@.skip(0) =~= v@);
        assert(out@ + utf16_of(v@) =~= utf16_of(v@));
    }
    while i < v.len()
        invariant
            i <= v@.len(),
            out@ + utf16_of(v@.skip(i as int)) == utf16_of(v@),
        decreases v@.len() - i,
    {
        let ghost before = out@;
        let ghost rest = v@.skip(i as int);
        let ch: char = v[i];
        let c: u32 = ch as u32;
        proof {
            lemma_scalar(ch);
        }
        if c < 0x10000 {
            push_unit(&mut out, c);
        } else {
            push_unit(&mut out, 0xD800 + (c - 0x10000) / 0x400);
            push_unit(&mut out, 0xDC00 + (c - 0x10000) % 0x400);
        }
        proof {
            assert(out@ =~= before + char_bytes(rest[0]));
            assert(rest.drop_first() =~= v@.skip(i + 1));
            assert(before + (char_bytes(rest[0]) + utf16_of(rest.drop_first())) =~= out@ + utf16_of(
                v@.skip(i + 1),
            ));
        }
        i = i + 1;
    }
    assert(out@ + utf16_of(v@.skip(i as int)) =~= out@);
    out
}

// ---------------------------------------------------------------------------
// Base64
// ---------------------------------------------------------------------------

/// The base64 character for a value below 64.
pub open spec fn sextet_char(i: int) -> char {
    if i < 26 {
        (i + 'A' as int) as char
    } else if i < 52 {
        (i - 26 + 'a' as int) as char
    } else if i < 62 {
        (i - 52 + '0' as int) as char
    } else if i == 62 {
        '+'
    } else {
        '/'
    }
}

/// The value of a base64 character, zero for the padding character.
pub open spec fn sextet_value(c: char) -> int {
    if 'A' <= c <= 'Z' {
        c as int - 'A' as int
    } else if 'a' <= c <= 'z' {
        c as int - 'a' as int + 26
    } else if '0' <= c <= '9' {
        c as int - '0' as int + 52
    } else if c == '+' {
        62
    } else if c == '/' {
        63
    } else {
        0
    }
}

/// Three bytes as one number of 24 bits.
pub open spec fn triple(a: u8, b: u8, c: u8) -> int {
    a * 65536 + b * 256 + c
}

/// The character for the sextet number `k` of a number of 24 bits.
pub open spec fn sextet_of(t: int, k: int) -> char {
    if k == 0 {
        sextet_char(t / 262144)
    } else if k == 1 {
        sextet_char(t / 4096 % 64)
    } else if k == 2 {
        sextet_char(t / 64 % 64)
    } else {
        sextet_char(t % 64)
    }
}

/// The base64 text of the bytes `d`.
pub open spec fn base64_of(d: Seq<u8>) -> Seq<char>
    decreases d.len(),
{
    if d.len() == 0 {
        Seq::empty()
    } else if d.len() == 1 {
        let t = triple(d[0], 0, 0);
        seq![sextet_of(t, 0), sextet_of(t, 1), '=', '=']
    } else if d.len() == 2 {
        let t = triple(d[0], d[1], 0);
        seq![sextet_of(t, 0), sextet_of(t, 1), sextet_of(t, 2), '=']
    } else {
        let t = triple(d[0], d[1], d[2]);
        seq![sextet_of(t, 0), sextet_of(t, 1), sextet_of(t, 2), sextet_of(t, 3)] + base64_of(
            d.skip(3),
        )
    }
}

/// The bytes that a base64 text stands for.
pub open spec fn base64_decoded(s: Seq<char>) -> Seq<u8>
    decreases s.len(),
{
    if s.len() < 4 {
        Seq::empty()
    } else {
        let t = sextet_value(s[0]) * 262144 + sextet_value(s[1]) * 4096 + sextet_value(s[2]) * 64
            + sextet_value(s[3]);
        if s[2] == '=' {
            seq![(t / 65536) as u8]
        } else if s[3] == '=' {
            seq![(t / 65536) as u8, (t / 256 % 256) as u8]
        } else {
            seq![(t / 65536) as u8, (t / 256 % 256) as u8, (t % 256) as u8] + base64_decoded(
                s.skip(4),
            )
        }
    }
}

fn encode_sextet(i: u32) -> (c: char)
    requires
        i < 64,
    ensures
        c == sextet_char(i as int),
{
    if i < 26 {
        (i as u8 + 65) as char
    } else if i < 52 {
        (i as u8 - 26 + 97) as char
    } else if i < 62 {
        (i as u8 - 52 + 48) as char
    } else if i == 62 {
        '+'
    } else {
        '/'
    }
}

/// The base64 text of the bytes `data`, padded to a multiple of four characters.
pub fn base64_encode(data: &[u8]) -> (out: String)
    ensures
        out@ == base64_of(data@),
{
    let mut out: String = String::new();
    let mut i: usize = 0;
    proof {
        assert(data@.skip(0) =~= data@);
        assert(out@ + base64_of(data@) =~= base64_of(data@));
    }
    while i < data.len()
        invariant
            i <= data@.len(),
            data@.len() == data.len(),
            out@ + base64_of(data@.skip(i as int)) == base64_of(data@),
        decreases data@.len() - i,
    {
        let ghost before = out@;
        let ghost rest = data@.skip(i as int);
        let left: usize = data.len() - i;
        let b0: u32 = data[i] as u32;
        let b1: u32 = if left > 1 {
            data[i + 1] as u32
        } else {
            0
        };
        let b2: u32 = if left > 2 {
            data[i + 2] as u32
        } else {
            0
        };
        let t: u32 = b0 * 65536 + b1 * 256 + b2;
        assert(t / 262144 < 64);
        out.push(encode_sextet(t / 262144));
        out.push(encode_sextet(t / 4096 % 64));
        if left > 1 {
            out.push(encode_sextet(t / 64 % 64));
        } else {
            out.push('=');
        }
        if left > 2 {
            out.push(encode_sextet(t % 64));
        } else {
            out.push('=');
        }
        let step: usize = if left > 3 {
            3
        } else {
            left
        };
        proof {
            assert(out@ =~= before + out@.skip(before.len() as int));
            if left >= 3 {
                assert(rest.skip(3) =~= data@.skip(i + 3));
            } else {
                assert(base64_of(data@.skip(i + step)) =~= Seq::<char>::empty());
            }
            assert(before + base64_of(rest) =~= out@ + base64_of(data@.skip(i + step)));
        }
        i = i + step;
    }
    assert(out@ + base64_of(data@.skip(i as int)) =~= out@);
    out
}

/// The text handed to `powershell.exe -EncodedCommand` for the command `s`.
pub open spec fn encoded_command_of(s: Seq<char>) -> Seq<char> {
    base64_of(utf16_of(s))
}

/// Encodes a PowerShell command for `powershell.exe -EncodedCommand`.
pub fn encode_powershell_command(command: &str) -> (out: String)
    ensures
        out@ == encoded_command_of(command@),
{
    let bytes = utf16_le(command);
    base64_encode(bytes.as_slice())
}

// ---------------------------------------------------------------------------
// Laws
// ---------------------------------------------------------------------------

/// Whether `c` belongs to the base64 alphabet or is its padding.
pub open spec fn is_base64_char(c: char) -> bool {
    'A' <= c <= 'Z' || 'a' <= c <= 'z' || '0' <= c <= '9' || c == '+' || c == '/' || c == '='
}

/// A base64 text has four characters for every three bytes begun, all of them of the
/// base64 alphabet.
pub proof fn law_base64_shape(d: Seq<u8>)
    ensures
        base64_of(d).len() == (d.len() + 2) / 3 * 4,
        forall|i: int| 0 <= i < base64_of(d).len() ==> is_base64_char(#[trigger] base64_of(d)[i]),
    decreases d.len(),
{
    if d.len() >= 3 {
        law_base64_shape(d.skip(3));
        let t = triple(d[0], d[1], d[2]);
        let head = seq![sextet_of(t, 0), sextet_of(t, 1), sextet_of(t, 2), sextet_of(t, 3)];
        assert forall|i: int| 0 <= i < base64_of(d).len() implies is_base64_char(
            #[trigger] base64_of(d)[i],
        ) by {
            if i >= 4 {
                assert(base64_of(d)[i] == base64_of(d.skip(3))[i - 4]);
            } else {
                assert(base64_of(d)[i] == head[i]);
            }
        }
    }
}

/// The bytes and the sextets of a number of 24 bits.
proof fn lemma_triple(a: u8, b: u8, c: u8)
    ensures
        ({
            let t = triple(a, b, c);
            &&& 0 <= t < 16777216
            &&& t / 65536 == a
            &&& t / 256 % 256 == b
            &&& t % 256 == c
            &&& t / 262144 * 262144 + t / 4096 % 64 * 4096 + t / 64 % 64 * 64 + t % 64 == t
            &&& c == 0 ==> t % 64 == 0
            &&& b == 0 && c == 0 ==> t / 64 % 64 == 0
        }),
{
    let t = triple(a, b, c);
    let (a1, a0) = (a as int / 4, a as int % 4);
    let (b1, b0) = (b as int / 16, b as int % 16);
    let (c1, c0) = (c as int / 64, c as int % 64);
    div_mod::lemma_fundamental_div_mod_converse(t, 65536, a as int, b * 256 + c);
    div_mod::lemma_fundamental_div_mod_converse(t, 256, a * 256 + b, c as int);
    div_mod::lemma_fundamental_div_mod_converse(a * 256 + b, 256, a as int, b as int);
    div_mod::lemma_fundamental_div_mod_converse(t, 262144, a1, a0 * 65536 + b * 256 + c);
    div_mod::lemma_fundamental_div_mod_converse(t, 4096, a * 16 + b1, b0 * 256 + c);
    div_mod::lemma_fundamental_div_mod_converse(a * 16 + b1, 64, a1, a0 * 16 + b1);
    div_mod::lemma_fundamental_div_mod_converse(t, 64, a * 1024 + b * 4 + c1, c0);
    div_mod::lemma_fundamental_div_mod_converse(a * 1024 + b * 4 + c1, 64, a * 16 + b1, b0 * 4 + c1);
}

proof fn lemma_sextet(i: int)
    requires
        0 <= i < 64,
    ensures
        sextet_value(sextet_char(i)) == i,
        sextet_char(i) != '=',
{
}

/// The first quartet of a base64 text decodes to the number it was made from.
proof fn lemma_quartet(t: int)
    requires
        0 <= t < 16777216,
    ensures
        sextet_value(sextet_of(t, 0)) == t / 262144,
        sextet_value(sextet_of(t, 1)) == t / 4096 % 64,
        sextet_value(sextet_of(t, 2)) == t / 64 % 64,
        sextet_value(sextet_of(t, 3)) == t % 64,
        sextet_of(t, 2) != '=',
        sextet_of(t, 3) != '=',
{
    lemma_sextet(t / 262144);
    lemma_sextet(t / 4096 % 64);
    lemma_sextet(t / 64 % 64);
    lemma_sextet(t % 64);
}

/// Decoding a base64 text gives back the bytes it was made from.
pub proof fn law_base64_decodes(d: Seq<u8>)
    ensures
        base64_decoded(base64_of(d)) == d,
    decreases d.len(),
{
    let s = base64_of(d);
    if d.len() == 0 {
        assert(base64_decoded(s) =~= d);
    } else {
        let b = if d.len() > 1 {
            d[1]
        } else {
            0
        };
        let c = if d.len() > 2 {
            d[2]
        } else {
            0
        };
        let t = triple(d[0], b, c);
        lemma_triple(d[0], b, c);
        lemma_quartet(t);
        assert(sextet_value(s[0]) == t / 262144);
        assert(sextet_value(s[1]) == t / 4096 % 64);
        assert(sextet_value(s[2]) == t / 64 % 64);
        assert(sextet_value(s[3]) == t % 64);
        if d.len() >= 3 {
            law_base64_decodes(d.skip(3));
            assert(s.skip(4) =~= base64_of(d.skip(3)));
        }
        assert(base64_decoded(s) =~= d);
    }
}

/// Decoding the UTF-16 bytes of a text gives back the text.
pub proof fn law_utf16_decodes(s: Seq<char>)
    ensures
        utf16_decoded(utf16_of(s)) == s,
    decreases s.len(),
{
    if s.len() > 0 {
        let rest = s.drop_first();
        law_utf16_decodes(rest);
        let b = utf16_of(s);
        let v = s[0] as int;
        lemma_scalar(s[0]);
        if v < 0x10000 {
            assert(b.skip(2) =~= utf16_of(rest));
            assert(b[0] + 256 * b[1] == v);
        } else {
            assert(b.skip(4) =~= utf16_of(rest));
            assert(b[0] + 256 * b[1] == 0xD800 + (v - 0x10000) / 0x400);
            assert(b[2] + 256 * b[3] == 0xDC00 + (v - 0x10000) % 0x400);
        }
        assert(utf16_decoded(b) =~= s);
    } else {
        assert(utf16_decoded(utf16_of(s)) =~= s);
    }
}

/// What PowerShell decodes from an encoded command is the command.
pub proof fn law_encoded_command_decodes(command: Seq<char>)
    ensures
        utf16_decoded(base64_decoded(encoded_command_of(command))) == command,
{
    law_base64_decodes(utf16_of(command));
    law_utf16_decodes(command);
}

/// A character of the basic plane is two bytes in UTF-16, the low one first; any other is the
/// high and the low surrogate of what it exceeds that plane by. The bytes of a text are those of
/// its characters, in order.
pub proof fn law_utf16_units(c: char, s: Seq<char>)
    ensures
        utf16_of(Seq::empty()).len() == 0,
        ({
            let bytes = utf16_of(seq![c] + s);
            let v = c as int;
            let unit = |k: int| bytes[2 * k] + 256 * bytes[2 * k + 1];
            &&& v < 0x10000 ==> bytes.len() == 2 + utf16_of(s).len() && unit(0) == v && bytes.skip(
                2,
            ) == utf16_of(s)
            &&& v >= 0x10000 ==> {
                &&& bytes.len() == 4 + utf16_of(s).len()
                &&& 0xD800 <= unit(0) < 0xDC00
                &&& 0xDC00 <= unit(1) < 0xE000
                &&& v == 0x10000 + (unit(0) - 0xD800) * 0x400 + (unit(1) - 0xDC00)
                &&& bytes.skip(4) == utf16_of(s)
            }
        }),
{
    lemma_scalar(c);
    let all = seq![c] + s;
    assert(all.drop_first() =~= s);
    let bytes = utf16_of(all);
    if (c as int) < 0x10000 {
        assert(bytes.skip(2) =~= utf16_of(s));
    } else {
        assert(bytes.skip(4) =~= utf16_of(s));
    }
}

/// The base64 alphabet: capital letters, small letters, digits, `+` and `/`.
pub proof fn law_base64_alphabet(i: int)
    requires
        0 <= i < 64,
    ensures
        i < 26 ==> sextet_char(i) as int == 65 + i,
        26 <= i < 52 ==> sextet_char(i) as int == 97 + (i - 26),
        52 <= i < 62 ==> sextet_char(i) as int == 48 + (i - 52),
        i == 62 ==> sextet_char(i) == '+',
        i == 63 ==> sextet_char(i) == '/',
{
}

/// Three bytes are four characters, each for six bits, the highest first; one or two bytes at the
/// end are filled up with zeros, and equals signs stand for the characters without a bit.
pub proof fn law_base64_quartets(a: u8, b: u8, c: u8, d: Seq<u8>)
    ensures
        base64_of(Seq::empty()).len() == 0,
        base64_of(seq![a, b, c] + d) == seq![
            sextet_char(a as int / 4),
            sextet_char(a as int % 4 * 16 + b as int / 16),
            sextet_char(b as int % 16 * 4 + c as int / 64),
            sextet_char(c as int % 64),
        ] + base64_of(d),
        base64_of(seq![a, b]) == seq![
            sextet_char(a as int / 4),
            sextet_char(a as int % 4 * 16 + b as int / 16),
            sextet_char(b as int % 16 * 4),
            '=',
        ],
        base64_of(seq![a]) == seq![
            sextet_char(a as int / 4),
            sextet_char(a as int % 4 * 16),
            '=',
            '=',
        ],
{
    lemma_sextets(a, b, c);
    lemma_sextets(a, b, 0);
    lemma_sextets(a, 0, 0);
    let all = seq![a, b, c] + d;
    assert(all.skip(3) =~= d);
    assert(all[0] == a && all[1] == b && all[2] == c);
}

proof fn lemma_sextets(a: u8, b: u8, c: u8)
    ensures
        ({
            let t = triple(a, b, c);
            &&& t / 262144 == a as int / 4
            &&& t / 4096 % 64 == a as int % 4 * 16 + b as int / 16
            &&& t / 64 % 64 == b as int % 16 * 4 + c as int / 64
            &&& t % 64 == c as int % 64
        }),
{
    let t = triple(a, b, c);
    let (a1, a0) = (a as int / 4, a as int % 4);
    let (b1, b0) = (b as int / 16, b as int % 16);
    let (c1, c0) = (c as int / 64, c as int % 64);
    div_mod::lemma_fundamental_div_mod_converse(t, 262144, a1, a0 * 65536 + b * 256 + c);
    div_mod::lemma_fundamental_div_mod_converse(t, 4096, a * 16 + b1, b0 * 256 + c);
    div_mod::lemma_fundamental_div_mod_converse(a * 16 + b1, 64, a1, a0 * 16 + b1);
    div_mod::lemma_fundamental_div_mod_converse(t, 64, a * 1024 + b * 4 + c1, c0);
    div_mod::lemma_fundamental_div_mod_converse(a * 1024 + b * 4 + c1, 64, a * 16 + b1, b0 * 4 + c1);
}

} // verus!

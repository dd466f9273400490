//! Standard base64 (RFC 4648: the `A–Z a–z 0–9 + /` alphabet, `=` padding), as a
//! specification, with the facts the library uses: its length, and that
//! decoding gives back what was encoded.

use vstd::prelude::*;

verus! {

/// The character of a 6-bit value in the standard alphabet.
pub open spec fn b64_digit(v: int) -> char {
    if v < 26 {
        (65 + v) as char
    } else if v < 52 {
        (71 + v) as char
    } else if v < 62 {
        (v - 4) as char
    } else if v == 62 {
        '+'
    } else {
        '/'
    }
}

/// The four characters of three bytes.
pub open spec fn b64_group(a: u8, b: u8, c: u8) -> Seq<char> {
    seq![
        b64_digit(a as int / 4),
        b64_digit((a as int % 4) * 16 + b as int / 16),
        b64_digit((b as int % 16) * 4 + c as int / 64),
        b64_digit(c as int % 64),
    ]
}

/// The padded base64 text of `bytes`.
pub open spec fn b64_encode(bytes: Seq<u8>) -> Seq<char>
    decreases bytes.len(),
{
    if bytes.len() == 0 {
        Seq::empty()
    } else if bytes.len() == 1 {
        seq![b64_digit(bytes[0] as int / 4), b64_digit((bytes[0] as int % 4) * 16), '=', '=']
    } else if bytes.len() == 2 {
        seq![
            b64_digit(bytes[0] as int / 4),
            b64_digit((bytes[0] as int % 4) * 16 + bytes[1] as int / 16),
            b64_digit((bytes[1] as int % 16) * 4),
            '=',
        ]
    } else {
        b64_group(bytes[0], bytes[1], bytes[2]) + b64_encode(bytes.subrange(3, bytes.len() as int))
    }
}

/// The bytes whose padded base64 text is `text`, if there are any (the text is
/// a canonical encoding); `None` otherwise.
pub open spec fn b64_decode(text: Seq<char>) -> Option<Seq<u8>> {
    if exists|b: Seq<u8>| b64_encode(b) == text {
        Some(choose|b: Seq<u8>| b64_encode(b) == text)
    } else {
        None
    }
}

/// Length of the padded base64 text of `n` bytes.
pub open spec fn b64_len(n: nat) -> nat {
    4 * ((n + 2) / 3)
}

/// The text of `n` bytes has four characters per started group of three.
pub proof fn lemma_b64_len(bytes: Seq<u8>)
    ensures
        b64_encode(bytes).len() == b64_len(bytes.len()),
    decreases bytes.len(),
{
    if bytes.len() >= 3 {
        lemma_b64_len(bytes.subrange(3, bytes.len() as int));
    }
}

proof fn lemma_digit_injective(x: int, y: int)
    requires
        0 <= x < 64,
        0 <= y < 64,
        b64_digit(x) == b64_digit(y),
    ensures
        x == y,
{
}

proof fn lemma_digit_not_pad(x: int)
    requires
        0 <= x < 64,
    ensures
        b64_digit(x) != '=',
{
}

/// Three bytes are fixed by their four characters.
proof fn lemma_group_injective(a0: u8, a1: u8, a2: u8, b0: u8, b1: u8, b2: u8)
    requires
        b64_group(a0, a1, a2) == b64_group(b0, b1, b2),
    ensures
        a0 == b0,
        a1 == b1,
        a2 == b2,
{
    let ga = b64_group(a0, a1, a2);
    let gb = b64_group(b0, b1, b2);
    assert(ga[0] == gb[0] && ga[1] == gb[1] && ga[2] == gb[2] && ga[3] == gb[3]);
    lemma_digit_injective(a0 as int / 4, b0 as int / 4);
    lemma_digit_injective((a0 as int % 4) * 16 + a1 as int / 16, (b0 as int % 4) * 16 + b1 as int / 16);
    lemma_digit_injective((a1 as int % 16) * 4 + a2 as int / 64, (b1 as int % 16) * 4 + b2 as int / 64);
    lemma_digit_injective(a2 as int % 64, b2 as int % 64);
}

/// Where the text of `bytes` has a padding character, for each length.
proof fn lemma_b64_pads(bytes: Seq<u8>)
    ensures
        bytes.len() >= 3 ==> b64_encode(bytes)[2] != '=' && b64_encode(bytes)[3] != '=',
        bytes.len() == 2 ==> b64_encode(bytes)[2] != '=' && b64_encode(bytes)[3] == '=',
        bytes.len() == 1 ==> b64_encode(bytes)[2] == '=' && b64_encode(bytes)[3] == '=',
{
    if bytes.len() >= 3 {
        let g = b64_group(bytes[0], bytes[1], bytes[2]);
        let rest = b64_encode(bytes.subrange(3, bytes.len() as int));
        assert(b64_encode(bytes)[2] == g[2]);
        assert(b64_encode(bytes)[3] == g[3]);
        lemma_digit_not_pad((bytes[1] as int % 16) * 4 + bytes[2] as int / 64);
        lemma_digit_not_pad(bytes[2] as int % 64);
    } else if bytes.len() == 2 {
        lemma_digit_not_pad((bytes[1] as int % 16) * 4);
    }
}

/// Different bytes have different texts.
pub proof fn lemma_b64_injective(a: Seq<u8>, b: Seq<u8>)
    requires
        b64_encode(a) == b64_encode(b),
    ensures
        a == b,
    decreases a.len(),
{
    lemma_b64_len(a);
    lemma_b64_len(b);
    let t = b64_encode(a);
    if a.len() == 0 || b.len() == 0 {
        assert(a.len() == 0 && b.len() == 0);
        assert(a =~= b);
    } else {
        lemma_b64_pads(a);
        lemma_b64_pads(b);
        if a.len() == 1 {
            assert(b.len() == 1);
            let ta = b64_encode(a);
            assert(ta[0] == b64_encode(b)[0] && ta[1] == b64_encode(b)[1]);
            lemma_digit_injective(a[0] as int / 4, b[0] as int / 4);
            lemma_digit_injective((a[0] as int % 4) * 16, (b[0] as int % 4) * 16);
            assert(a =~= b);
        } else if a.len() == 2 {
            assert(b.len() == 2);
            let ta = b64_encode(a);
            assert(ta[0] == b64_encode(b)[0] && ta[1] == b64_encode(b)[1] && ta[2] == b64_encode(b)[2]);
            lemma_digit_injective(a[0] as int / 4, b[0] as int / 4);
            lemma_digit_injective((a[0] as int % 4) * 16 + a[1] as int / 16, (b[0] as int % 4) * 16 + b[1] as int / 16);
            lemma_digit_injective((a[1] as int % 16) * 4, (b[1] as int % 16) * 4);
            assert(a =~= b);
        } else {
            assert(b.len() >= 3);
            let ra = a.subrange(3, a.len() as int);
            let rb = b.subrange(3, b.len() as int);
            let ga = b64_group(a[0], a[1], a[2]);
            let gb = b64_group(b[0], b[1], b[2]);
            assert(t == ga + b64_encode(ra));
            assert(t == gb + b64_encode(rb));
            assert(ga =~= t.subrange(0, 4));
            assert(gb =~= t.subrange(0, 4));
            assert(b64_encode(ra) =~= t.subrange(4, t.len() as int));
            assert(b64_encode(rb) =~= t.subrange(4, t.len() as int));
            lemma_group_injective(a[0], a[1], a[2], b[0], b[1], b[2]);
            lemma_b64_injective(ra, rb);
            assert(a =~= seq![a[0], a[1], a[2]] + ra);
            assert(b =~= seq![b[0], b[1], b[2]] + rb);
        }
    }
}

/// Decoding the text of `bytes` gives `bytes`.
pub proof fn lemma_b64_roundtrip(bytes: Seq<u8>)
    ensures
        b64_decode(b64_encode(bytes)) == Some(bytes),
{
    let t = b64_encode(bytes);
    assert(exists|b: Seq<u8>| b64_encode(b) == t);
    let c = choose|b: Seq<u8>| b64_encode(b) == t;
    lemma_b64_injective(c, bytes);
}

} // verus!

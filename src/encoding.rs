//! Base64 (standard alphabet, with padding) as used for attachment content.
use vstd::prelude::*;

verus! {

/// The character of the standard base64 alphabet for a six-bit value.
pub open spec fn b64_char(v: int) -> char {
    if v < 26 {
        (65 + v) as char
    } else if v < 52 {
        (97 + (v - 26)) as char
    } else if v < 62 {
        (48 + (v - 52)) as char
    } else if v == 62 {
        '+'
    } else {
        '/'
    }
}

/// The six-bit value of a character of the standard base64 alphabet.
pub open spec fn b64_value(c: char) -> int {
    let n = c as int;
    if 65 <= n <= 90 {
        n - 65
    } else if 97 <= n <= 122 {
        n - 97 + 26
    } else if 48 <= n <= 57 {
        n - 48 + 52
    } else if c == '+' {
        62
    } else {
        63
    }
}

/// Each six-bit value is read back from its character, which is never the
/// padding character.
pub proof fn lemma_value_of_char(v: int)
    requires
        0 <= v < 64,
    ensures
        b64_value(b64_char(v)) == v,
        b64_char(v) != '=',
{
}

/// The four characters for one complete group of three bytes.
pub open spec fn encode_group(b0: int, b1: int, b2: int) -> Seq<char> {
    seq![
        b64_char(b0 / 4),
        b64_char((b0 % 4) * 16 + b1 / 16),
        b64_char((b1 % 16) * 4 + b2 / 64),
        b64_char(b2 % 64),
    ]
}

/// Standard base64 with `=` padding: each group of three bytes becomes four
/// characters; a final group of one or two bytes is padded to four.
pub open spec fn b64_encode(b: Seq<u8>) -> Seq<char>
    decreases b.len(),
{
    if b.len() == 0 {
        Seq::empty()
    } else if b.len() == 1 {
        encode_group(b[0] as int, 0, 0).subrange(0, 2) + seq!['=', '=']
    } else if b.len() == 2 {
        encode_group(b[0] as int, b[1] as int, 0).subrange(0, 3) + seq!['=']
    } else {
        encode_group(b[0] as int, b[1] as int, b[2] as int) + b64_encode(b.subrange(3, b.len() as int))
    }
}

/// Reads base64 text back into bytes, four characters at a time.
pub open spec fn b64_decode(s: Seq<char>) -> Seq<u8>
    decreases s.len(),
{
    if s.len() < 4 {
        Seq::empty()
    } else {
        let v0 = b64_value(s[0]);
        let v1 = b64_value(s[1]);
        let v2 = b64_value(s[2]);
        let v3 = b64_value(s[3]);
        let first = (v0 * 4 + v1 / 16) as u8;
        let second = ((v1 % 16) * 16 + v2 / 4) as u8;
        let third = ((v2 % 4) * 64 + v3) as u8;
        if s[2] == '=' {
            seq![first]
        } else if s[3] == '=' {
            seq![first, second]
        } else {
            seq![first, second, third] + b64_decode(s.subrange(4, s.len() as int))
        }
    }
}

proof fn lemma_group_round_trip(b0: u8, b1: u8, b2: u8)
    ensures
        ({
            let v0 = b0 as int / 4;
            let v1 = (b0 as int % 4) * 16 + b1 as int / 16;
            let v2 = (b1 as int % 16) * 4 + b2 as int / 64;
            let v3 = b2 as int % 64;
            &&& 0 <= v0 < 64 && 0 <= v1 < 64 && 0 <= v2 < 64 && 0 <= v3 < 64
            &&& (v0 * 4 + v1 / 16) as u8 == b0
            &&& ((v1 % 16) * 16 + v2 / 4) as u8 == b1
            &&& ((v2 % 4) * 64 + v3) as u8 == b2
        }),
{
    assert(0 <= b0 as int / 4 < 64);
    assert(((b0 as int % 4) * 16 + b1 as int / 16) / 16 == b0 as int % 4) by (nonlinear_arith);
    assert(((b0 as int % 4) * 16 + b1 as int / 16) % 16 == b1 as int / 16) by (nonlinear_arith);
    assert(((b1 as int % 16) * 4 + b2 as int / 64) / 4 == b1 as int % 16) by (nonlinear_arith);
    assert(((b1 as int % 16) * 4 + b2 as int / 64) % 4 == b2 as int / 64) by (nonlinear_arith);
    assert(b0 as int == (b0 as int / 4) * 4 + b0 as int % 4) by (nonlinear_arith);
    assert(b1 as int == (b1 as int / 16) * 16 + b1 as int % 16) by (nonlinear_arith);
    assert(b2 as int == (b2 as int / 64) * 64 + b2 as int % 64) by (nonlinear_arith);
}

proof fn lemma_group_chars(b0: int, b1: int, b2: int)
    requires
        0 <= b0 < 256,
        0 <= b1 < 256,
        0 <= b2 < 256,
    ensures
        forall|i: int|
            0 <= i < 4 ==> #[trigger] encode_group(b0, b1, b2)[i] != '=',
        b64_value(encode_group(b0, b1, b2)[0]) == b0 / 4,
        b64_value(encode_group(b0, b1, b2)[1]) == (b0 % 4) * 16 + b1 / 16,
        b64_value(encode_group(b0, b1, b2)[2]) == (b1 % 16) * 4 + b2 / 64,
        b64_value(encode_group(b0, b1, b2)[3]) == b2 % 64,
{
    lemma_value_of_char(b0 / 4);
    lemma_value_of_char((b0 % 4) * 16 + b1 / 16);
    lemma_value_of_char((b1 % 16) * 4 + b2 / 64);
    lemma_value_of_char(b2 % 64);
}

/// Decoding the base64 text of any byte sequence, the empty one included,
/// gives back exactly those bytes.
pub proof fn lemma_b64_round_trip(b: Seq<u8>)
    ensures
        b64_decode(b64_encode(b)) == b,
    decreases b.len(),
{
    let e = b64_encode(b);
    if b.len() == 0 {
        assert(b =~= Seq::<u8>::empty());
    } else if b.len() == 1 {
        lemma_group_round_trip(b[0], 0, 0);
        lemma_group_chars(b[0] as int, 0, 0);
        assert(b64_decode(e) =~= b);
    } else if b.len() == 2 {
        lemma_group_round_trip(b[0], b[1], 0);
        lemma_group_chars(b[0] as int, b[1] as int, 0);
        assert(b64_decode(e) =~= b);
    } else {
        let rest = b.subrange(3, b.len() as int);
        lemma_b64_round_trip(rest);
        lemma_group_round_trip(b[0], b[1], b[2]);
        lemma_group_chars(b[0] as int, b[1] as int, b[2] as int);
        let g = encode_group(b[0] as int, b[1] as int, b[2] as int);
        assert(e == g + b64_encode(rest));
        assert(e.subrange(4, e.len() as int) =~= b64_encode(rest));
        assert(e[0] == g[0] && e[1] == g[1] && e[2] == g[2] && e[3] == g[3]);
        assert(b64_decode(e) == seq![b[0], b[1], b[2]] + rest);
        assert(b64_decode(e) =~= b);
    }
}

/// The length of standard padded base64 text for `n` bytes.
pub open spec fn b64_len(n: nat) -> nat {
    (n + 2) / 3 * 4
}

/// Relies on base64::encode (standard alphabet, padded): the text it returns
/// for the given bytes. It panics only where that length overflows `usize`.
#[verifier::external_body]
pub(crate) fn encode_base64(b: &[u8]) -> (r: String)
    requires
        b64_len(b@.len()) <= usize::MAX,
    ensures
        r@ == b64_encode(b@),
{
    base64::encode(b)
}

} // verus!

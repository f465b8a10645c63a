use vstd::prelude::*;
use base64::Engine;

verus! {

/// The character that stands for a six-bit value in the standard base64 alphabet
/// (`A`-`Z`, `a`-`z`, `0`-`9`, `+`, `/`).
pub open spec fn base64_digit(x: u8) -> char {
    if x < 26 {
        (x + 65) as u32 as char
    } else if x < 52 {
        (x + 71) as u32 as char
    } else if x < 62 {
        (x - 4) as u32 as char
    } else if x == 62 {
        '+'
    } else {
        '/'
    }
}

/// The four characters that encode three whole bytes.
pub open spec fn base64_group(b0: u8, b1: u8, b2: u8) -> Seq<char> {
    seq![
        base64_digit(b0 >> 2),
        base64_digit(((b0 & 3) << 4) | (b1 >> 4)),
        base64_digit(((b1 & 15) << 2) | (b2 >> 6)),
        base64_digit(b2 & 63),
    ]
}

/// Standard base64 with padding: each three bytes become four digits, and a
/// last group of one or two bytes is padded with `=` to four characters.
pub open spec fn base64_of(b: Seq<u8>) -> Seq<char>
    decreases b.len(),
{
    if b.len() == 0 {
        seq![]
    } else if b.len() == 1 {
        seq![base64_digit(b[0] >> 2), base64_digit((b[0] & 3) << 4), '=', '=']
    } else if b.len() == 2 {
        seq![
            base64_digit(b[0] >> 2),
            base64_digit(((b[0] & 3) << 4) | (b[1] >> 4)),
            base64_digit((b[1] & 15) << 2),
            '=',
        ]
    } else {
        base64_group(b[0], b[1], b[2]) + base64_of(b.subrange(3, b.len() as int))
    }
}

/// Text that is the standard base64 encoding of some byte sequence.
pub open spec fn is_base64(s: Seq<char>) -> bool {
    exists|b: Seq<u8>| base64_of(b) == s
}

/// The bytes that the base64 text `s` encodes (meaningful where `is_base64(s)`).
pub open spec fn decoded(s: Seq<char>) -> Seq<u8> {
    choose|b: Seq<u8>| base64_of(b) == s
}

/// Decoding the encoding of `c` gives back exactly `c`.
pub proof fn lemma_decode_encode(c: Seq<u8>)
    ensures
        is_base64(base64_of(c)),
        decoded(base64_of(c)) == c,
{
    assert(base64_of(c) == base64_of(c));
    let d = decoded(base64_of(c));
    lemma_base64_injective(d, c);
}

/// The bytes decoded from valid base64 text encode to that text again.
pub proof fn lemma_encode_decode(s: Seq<char>)
    requires
        is_base64(s),
    ensures
        base64_of(decoded(s)) == s,
{
}

proof fn lemma_digit_injective(x: u8, y: u8)
    requires
        x < 64,
        y < 64,
        base64_digit(x) == base64_digit(y),
    ensures
        x == y,
{
}

proof fn lemma_digit_not_pad(x: u8)
    ensures
        base64_digit(x) != '=',
{
}

proof fn lemma_sextets_bounded(b0: u8, b1: u8, b2: u8)
    ensures
        b0 >> 2 < 64,
        ((b0 & 3) << 4) | (b1 >> 4) < 64,
        ((b1 & 15) << 2) | (b2 >> 6) < 64,
        b2 & 63 < 64,
        (b0 & 3) << 4 < 64,
        (b1 & 15) << 2 < 64,
{
    assert(b0 >> 2 < 64) by (bit_vector);
    assert(((b0 & 3) << 4) | (b1 >> 4) < 64) by (bit_vector);
    assert(((b1 & 15) << 2) | (b2 >> 6) < 64) by (bit_vector);
    assert(b2 & 63 < 64) by (bit_vector);
    assert((b0 & 3) << 4 < 64) by (bit_vector);
    assert((b1 & 15) << 2 < 64) by (bit_vector);
}

proof fn lemma_sextets_determine_bytes(a0: u8, a1: u8, a2: u8, b0: u8, b1: u8, b2: u8)
    requires
        a0 >> 2 == b0 >> 2,
        ((a0 & 3) << 4) | (a1 >> 4) == ((b0 & 3) << 4) | (b1 >> 4),
        ((a1 & 15) << 2) | (a2 >> 6) == ((b1 & 15) << 2) | (b2 >> 6),
        a2 & 63 == b2 & 63,
    ensures
        a0 == b0,
        a1 == b1,
        a2 == b2,
{
    assert(a0 == b0 && a1 == b1 && a2 == b2) by (bit_vector)
        requires
            a0 >> 2 == b0 >> 2,
            ((a0 & 3) << 4) | (a1 >> 4) == ((b0 & 3) << 4) | (b1 >> 4),
            ((a1 & 15) << 2) | (a2 >> 6) == ((b1 & 15) << 2) | (b2 >> 6),
            a2 & 63 == b2 & 63,
    ;
}

proof fn lemma_group_injective(a0: u8, a1: u8, a2: u8, b0: u8, b1: u8, b2: u8)
    requires
        base64_group(a0, a1, a2) == base64_group(b0, b1, b2),
    ensures
        a0 == b0,
        a1 == b1,
        a2 == b2,
{
    let ga = base64_group(a0, a1, a2);
    let gb = base64_group(b0, b1, b2);
    lemma_sextets_bounded(a0, a1, a2);
    lemma_sextets_bounded(b0, b1, b2);
    assert(ga[0] == gb[0] && ga[1] == gb[1] && ga[2] == gb[2] && ga[3] == gb[3]);
    lemma_digit_injective(a0 >> 2, b0 >> 2);
    lemma_digit_injective(((a0 & 3) << 4) | (a1 >> 4), ((b0 & 3) << 4) | (b1 >> 4));
    lemma_digit_injective(((a1 & 15) << 2) | (a2 >> 6), ((b1 & 15) << 2) | (b2 >> 6));
    lemma_digit_injective(a2 & 63, b2 & 63);
    lemma_sextets_determine_bytes(a0, a1, a2, b0, b1, b2);
}

proof fn lemma_base64_len(b: Seq<u8>)
    ensures
        b.len() == 0 <==> base64_of(b).len() == 0,
        b.len() > 0 ==> base64_of(b).len() >= 4,
        b.len() > 3 ==> base64_of(b).len() >= 8,
    decreases b.len(),
{
    if b.len() > 3 {
        lemma_base64_len(b.subrange(3, b.len() as int));
    }
}

/// Base64 encoding is injective: one text decodes to at most one byte sequence.
pub proof fn lemma_base64_injective(a: Seq<u8>, b: Seq<u8>)
    requires
        base64_of(a) == base64_of(b),
    ensures
        a == b,
    decreases a.len(),
{
    let ea = base64_of(a);
    let eb = base64_of(b);
    lemma_base64_len(a);
    lemma_base64_len(b);
    if a.len() == 0 || b.len() == 0 {
        return;
    }
    lemma_sextets_bounded(a[0], if a.len() > 1 { a[1] } else { 0 }, 0);
    lemma_sextets_bounded(b[0], if b.len() > 1 { b[1] } else { 0 }, 0);
    if a.len() >= 3 && b.len() >= 3 {
        let ra = a.subrange(3, a.len() as int);
        let rb = b.subrange(3, b.len() as int);
        assert(ea.subrange(0, 4) == base64_group(a[0], a[1], a[2]));
        assert(eb.subrange(0, 4) == base64_group(b[0], b[1], b[2]));
        lemma_group_injective(a[0], a[1], a[2], b[0], b[1], b[2]);
        assert(base64_of(ra) == ea.subrange(4, ea.len() as int));
        assert(base64_of(rb) == eb.subrange(4, eb.len() as int));
        lemma_base64_injective(ra, rb);
        assert(a == a.subrange(0, 3) + ra);
        assert(b == b.subrange(0, 3) + rb);
        assert(a.subrange(0, 3) == b.subrange(0, 3));
    } else if a.len() >= 3 {
        lemma_digit_not_pad(a[2] & 63);
        assert(ea[3] != '=');
        assert(eb[3] == '=');
    } else if b.len() >= 3 {
        lemma_digit_not_pad(b[2] & 63);
        assert(eb[3] != '=');
        assert(ea[3] == '=');
    } else if a.len() == 1 && b.len() == 2 {
        lemma_digit_not_pad((b[1] & 15) << 2);
        assert(eb[2] != '=');
    } else if a.len() == 2 && b.len() == 1 {
        lemma_digit_not_pad((a[1] & 15) << 2);
        assert(ea[2] != '=');
    } else if a.len() == 1 {
        assert(ea[0] == eb[0] && ea[1] == eb[1]);
        lemma_digit_injective(a[0] >> 2, b[0] >> 2);
        lemma_digit_injective((a[0] & 3) << 4, (b[0] & 3) << 4);
        lemma_sextets_determine_bytes(a[0], 0, 0, b[0], 0, 0);
        assert(a =~= b);
    } else {
        assert(ea[0] == eb[0] && ea[1] == eb[1] && ea[2] == eb[2]);
        lemma_sextets_bounded(a[0], a[1], 0);
        lemma_sextets_bounded(b[0], b[1], 0);
        lemma_digit_injective(a[0] >> 2, b[0] >> 2);
        lemma_digit_injective(((a[0] & 3) << 4) | (a[1] >> 4), ((b[0] & 3) << 4) | (b[1] >> 4));
        lemma_digit_injective((a[1] & 15) << 2, (b[1] & 15) << 2);
        lemma_sextets_determine_bytes(a[0], a[1], 0, b[0], b[1], 0);
        assert(a =~= b);
    }
}

/// Relies on base64's `STANDARD.encode` (standard alphabet, `=` padding). It
/// panics only where the encoded length would overflow `usize`.
#[verifier::external_body]
pub(crate) fn encode_base64(b: &[u8]) -> (r: String)
    requires
        b@.len() <= usize::MAX / 2,
    ensures
        r@ == base64_of(b@),
{
    base64::engine::general_purpose::STANDARD.encode(b)
}

/// Relies on base64's `STANDARD.decode`: its padding mode is `RequireCanonical`
/// and it refuses non-zero trailing bits, so it accepts exactly the texts that
/// `STANDARD.encode` produces and returns the bytes they encode. The error is
/// the crate's `DecodeError` as text.
#[verifier::external_body]
pub(crate) fn decode_base64(s: &str) -> (r: Result<Vec<u8>, String>)
    ensures
        r is Ok <==> is_base64(s@),
        r matches Ok(d) ==> base64_of(d@) == s@,
{
    base64::engine::general_purpose::STANDARD.decode(s).map_err(|e| e.to_string())
}

} // verus!

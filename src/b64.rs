use vstd::prelude::*;

verus! {

/// The character of the standard Base64 alphabet for a six-bit value.
pub open spec fn b64_char(v: u8) -> char {
    if v < 26 {
        (65 + v) as u8 as char
    } else if v < 52 {
        (97 + (v - 26)) as u8 as char
    } else if v < 62 {
        (48 + (v - 52)) as u8 as char
    } else if v == 62 {
        '+'
    } else {
        '/'
    }
}

/// Standard Base64 without padding: each three bytes become four
/// characters, and a trailing one or two bytes become two or three.
pub open spec fn b64_unpadded(s: Seq<u8>) -> Seq<char>
    decreases s.len(),
{
    if s.len() >= 3 {
        seq![
            b64_char(s[0] >> 2),
            b64_char(((s[0] & 3) << 4) | (s[1] >> 4)),
            b64_char(((s[1] & 15) << 2) | (s[2] >> 6)),
            b64_char(s[2] & 63),
        ] + b64_unpadded(s.subrange(3, s.len() as int))
    } else if s.len() == 2 {
        seq![
            b64_char(s[0] >> 2),
            b64_char(((s[0] & 3) << 4) | (s[1] >> 4)),
            b64_char((s[1] & 15) << 2),
        ]
    } else if s.len() == 1 {
        seq![b64_char(s[0] >> 2), b64_char((s[0] & 3) << 4)]
    } else {
        seq![]
    }
}

proof fn lemma_char_injective(a: u8, b: u8)
    requires
        a < 64,
        b < 64,
        b64_char(a) == b64_char(b),
    ensures
        a == b,
{
    assert(b64_char(a) as u32 == b64_char(b) as u32);
}

proof fn lemma_six_bits(b0: u8, b1: u8, b2: u8)
    ensures
        b0 >> 2 < 64,
        ((b0 & 3) << 4) | (b1 >> 4) < 64,
        ((b1 & 15) << 2) | (b2 >> 6) < 64,
        b2 & 63 < 64,
        (b1 & 15) << 2 < 64,
        (b0 & 3) << 4 < 64,
{
    assert(b0 >> 2 < 64) by (bit_vector);
    assert(((b0 & 3) << 4) | (b1 >> 4) < 64) by (bit_vector);
    assert(((b1 & 15) << 2) | (b2 >> 6) < 64) by (bit_vector);
    assert(b2 & 63 < 64) by (bit_vector);
    assert((b1 & 15) << 2 < 64) by (bit_vector);
    assert((b0 & 3) << 4 < 64) by (bit_vector);
}

proof fn lemma_group_bytes(b0: u8, b1: u8, b2: u8, d0: u8, d1: u8, d2: u8)
    requires
        b0 >> 2 == d0 >> 2,
        ((b0 & 3) << 4) | (b1 >> 4) == ((d0 & 3) << 4) | (d1 >> 4),
        ((b1 & 15) << 2) | (b2 >> 6) == ((d1 & 15) << 2) | (d2 >> 6),
        b2 & 63 == d2 & 63,
    ensures
        b0 == d0 && b1 == d1 && b2 == d2,
{
    assert(b0 >> 2 == d0 >> 2 && ((b0 & 3) << 4) | (b1 >> 4) == ((d0 & 3) << 4) | (d1 >> 4) ==> b0
        == d0) by (bit_vector);
    assert(((b0 & 3) << 4) | (b1 >> 4) == ((d0 & 3) << 4) | (d1 >> 4) && ((b1 & 15) << 2) | (b2
        >> 6) == ((d1 & 15) << 2) | (d2 >> 6) ==> b1 == d1) by (bit_vector);
    assert(((b1 & 15) << 2) | (b2 >> 6) == ((d1 & 15) << 2) | (d2 >> 6) && b2 & 63 == d2 & 63
        ==> b2 == d2) by (bit_vector);
}

proof fn lemma_pair_bytes(b0: u8, b1: u8, d0: u8, d1: u8)
    requires
        b0 >> 2 == d0 >> 2,
        ((b0 & 3) << 4) | (b1 >> 4) == ((d0 & 3) << 4) | (d1 >> 4),
        (b1 & 15) << 2 == (d1 & 15) << 2,
    ensures
        b0 == d0 && b1 == d1,
{
    assert(b0 >> 2 == d0 >> 2 && ((b0 & 3) << 4) | (b1 >> 4) == ((d0 & 3) << 4) | (d1 >> 4) ==> b0
        == d0) by (bit_vector);
    assert(((b0 & 3) << 4) | (b1 >> 4) == ((d0 & 3) << 4) | (d1 >> 4) && (b1 & 15) << 2 == (d1
        & 15) << 2 ==> b1 == d1) by (bit_vector);
}

proof fn lemma_single_byte(b0: u8, d0: u8)
    requires
        b0 >> 2 == d0 >> 2,
        (b0 & 3) << 4 == (d0 & 3) << 4,
    ensures
        b0 == d0,
{
    assert(b0 >> 2 == d0 >> 2 && (b0 & 3) << 4 == (d0 & 3) << 4 ==> b0 == d0) by (bit_vector);
}

/// Inputs of one length have encodings of one length.
pub proof fn lemma_b64_len(s: Seq<u8>, t: Seq<u8>)
    requires
        s.len() == t.len(),
    ensures
        b64_unpadded(s).len() == b64_unpadded(t).len(),
    decreases s.len(),
{
    if s.len() >= 3 {
        lemma_b64_len(s.subrange(3, s.len() as int), t.subrange(3, t.len() as int));
    }
}

/// Base64 is one to one: inputs of one length with one encoding are equal.
pub proof fn lemma_b64_injective(s: Seq<u8>, t: Seq<u8>)
    requires
        s.len() == t.len(),
        b64_unpadded(s) == b64_unpadded(t),
    ensures
        s == t,
    decreases s.len(),
{
    let e = b64_unpadded(s);
    let f = b64_unpadded(t);
    if s.len() >= 3 {
        lemma_six_bits(s[0], s[1], s[2]);
        lemma_six_bits(t[0], t[1], t[2]);
        assert(e[0] == f[0] && e[1] == f[1] && e[2] == f[2] && e[3] == f[3]);
        lemma_char_injective(s[0] >> 2, t[0] >> 2);
        lemma_char_injective(((s[0] & 3) << 4) | (s[1] >> 4), ((t[0] & 3) << 4) | (t[1] >> 4));
        lemma_char_injective(((s[1] & 15) << 2) | (s[2] >> 6), ((t[1] & 15) << 2) | (t[2] >> 6));
        lemma_char_injective(s[2] & 63, t[2] & 63);
        lemma_group_bytes(s[0], s[1], s[2], t[0], t[1], t[2]);
        let rs = s.subrange(3, s.len() as int);
        let rt = t.subrange(3, t.len() as int);
        assert(b64_unpadded(rs) =~= e.subrange(4, e.len() as int));
        assert(b64_unpadded(rt) =~= f.subrange(4, f.len() as int));
        lemma_b64_injective(rs, rt);
        assert(s =~= seq![s[0], s[1], s[2]] + rs);
        assert(t =~= seq![t[0], t[1], t[2]] + rt);
    } else if s.len() == 2 {
        lemma_six_bits(s[0], s[1], 0);
        lemma_six_bits(t[0], t[1], 0);
        assert(e[0] == f[0] && e[1] == f[1] && e[2] == f[2]);
        lemma_char_injective(s[0] >> 2, t[0] >> 2);
        lemma_char_injective(((s[0] & 3) << 4) | (s[1] >> 4), ((t[0] & 3) << 4) | (t[1] >> 4));
        lemma_char_injective((s[1] & 15) << 2, (t[1] & 15) << 2);
        lemma_pair_bytes(s[0], s[1], t[0], t[1]);
        assert(s =~= t);
    } else if s.len() == 1 {
        lemma_six_bits(s[0], 0, 0);
        lemma_six_bits(t[0], 0, 0);
        assert(e[0] == f[0] && e[1] == f[1]);
        lemma_char_injective(s[0] >> 2, t[0] >> 2);
        lemma_char_injective((s[0] & 3) << 4, (t[0] & 3) << 4);
        lemma_single_byte(s[0], t[0]);
        assert(s =~= t);
    } else {
        assert(s =~= t);
    }
}

} // verus!

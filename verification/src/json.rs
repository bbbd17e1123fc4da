//! Minimal JSON text framing: string escaping and quoting.
//!
//! The caller-facing wire format of this backend is a small set of JSON
//! shapes.  The library frames them as bytes itself so that every message it
//! promises to send is pinned down byte for byte.

use vstd::prelude::*;

verus! {

/// Lower-case hexadecimal digit for `n < 16`.
pub open spec fn hex_digit(n: u8) -> u8 {
    if n < 10 {
        (48 + n) as u8
    } else {
        (87 + n) as u8
    }
}

/// The escape of one byte inside a JSON string, as the common serializers
/// write it: two-character escapes for the named control characters, `\u00xx`
/// for the other control bytes, everything else unchanged.
pub open spec fn esc_byte(b: u8) -> Seq<u8> {
    if b == 34 {
        seq![92u8, 34u8]
    } else if b == 92 {
        seq![92u8, 92u8]
    } else if b == 8 {
        seq![92u8, 98u8]
    } else if b == 12 {
        seq![92u8, 102u8]
    } else if b == 10 {
        seq![92u8, 110u8]
    } else if b == 13 {
        seq![92u8, 114u8]
    } else if b == 9 {
        seq![92u8, 116u8]
    } else if b < 32 {
        seq![92u8, 117u8, 48u8, 48u8, hex_digit(b / 16), hex_digit(b % 16)]
    } else {
        seq![b]
    }
}

/// The whole byte string escaped for use inside a JSON string literal.
pub open spec fn json_escaped(s: Seq<u8>) -> Seq<u8>
    decreases s.len(),
{
    if s.len() == 0 {
        Seq::empty()
    } else {
        esc_byte(s[0]) + json_escaped(s.drop_first())
    }
}

/// `s` escaped and wrapped in double quotes: a complete JSON string literal.
pub open spec fn json_string_of(s: Seq<u8>) -> Seq<u8> {
    seq![34u8] + json_escaped(s) + seq![34u8]
}

proof fn lemma_json_escaped_snoc(s: Seq<u8>, b: u8)
    ensures
        json_escaped(s.push(b)) == json_escaped(s) + esc_byte(b),
    decreases s.len(),
{
    if s.len() == 0 {
        assert(s.push(b).len() == 1);
        assert(s.push(b)[0] == b);
        assert(s.push(b).drop_first() =~= Seq::<u8>::empty());
        assert(json_escaped(s.push(b).drop_first()) == Seq::<u8>::empty());
        assert(json_escaped(s.push(b)) == esc_byte(b) + json_escaped(s.push(b).drop_first()));
        assert(esc_byte(b) + Seq::<u8>::empty() =~= esc_byte(b));
        assert(json_escaped(s) == Seq::<u8>::empty());
        assert(json_escaped(s) + esc_byte(b) =~= esc_byte(b));
    } else {
        assert(s.push(b).drop_first() =~= s.drop_first().push(b));
        lemma_json_escaped_snoc(s.drop_first(), b);
        assert(s.push(b)[0] == s[0]);
        assert(json_escaped(s.push(b)) == esc_byte(s[0]) + (json_escaped(s.drop_first())
            + esc_byte(b)));
        assert(esc_byte(s[0]) + (json_escaped(s.drop_first()) + esc_byte(b)) =~= (esc_byte(s[0])
            + json_escaped(s.drop_first())) + esc_byte(b));
    }
}

/// Appends the escaped form of `src` to `dst`.
pub fn push_json_escaped(dst: &mut Vec<u8>, src: &Vec<u8>)
    ensures
        final(dst)@ == old(dst)@ + json_escaped(src@),
{
    let ghost start = dst@;
    let mut i: usize = 0;
    while i < src.len()
        invariant
            i <= src.len(),
            dst@ == start + json_escaped(src@.take(i as int)),
        decreases src.len() - i,
    {
        let b = src[i];
        if b == 34 {
            dst.push(92);
            dst.push(34);
        } else if b == 92 {
            dst.push(92);
            dst.push(92);
        } else if b == 8 {
            dst.push(92);
            dst.push(98);
        } else if b == 12 {
            dst.push(92);
            dst.push(102);
        } else if b == 10 {
            dst.push(92);
            dst.push(110);
        } else if b == 13 {
            dst.push(92);
            dst.push(114);
        } else if b == 9 {
            dst.push(92);
            dst.push(116);
        } else if b < 32 {
            dst.push(92);
            dst.push(117);
            dst.push(48);
            dst.push(48);
            let hi = b / 16;
            let lo = b % 16;
            dst.push(if hi < 10 { 48 + hi } else { 87 + hi });
            dst.push(if lo < 10 { 48 + lo } else { 87 + lo });
        } else {
            dst.push(b);
        }
        proof {
            lemma_json_escaped_snoc(src@.take(i as int), src@[i as int]);
            assert(src@.take(i as int).push(src@[i as int]) =~= src@.take(i + 1));
            assert(dst@ =~= start + json_escaped(src@.take(i + 1)));
        }
        i = i + 1;
    }
    assert(src@.take(src@.len() as int) =~= src@);
}

/// Appends `src` as a complete JSON string literal (quoted and escaped).
pub fn push_json_string(dst: &mut Vec<u8>, src: &Vec<u8>)
    ensures
        final(dst)@ == old(dst)@ + json_string_of(src@),
{
    dst.push(34);
    push_json_escaped(dst, src);
    dst.push(34);
    assert(dst@ =~= old(dst)@ + json_string_of(src@));
}

} // verus!

//! Byte-sequence helpers: concatenation, and expansion of bytes into bits
//! least-significant-bit first, the granularity at which the note-commitment
//! hash consumes its input.

use vstd::prelude::*;

verus! {

/// The bit of `b` at position `j`, counting from the least significant bit.
pub open spec fn byte_bit(b: u8, j: u8) -> bool {
    ((b >> j) & 1) == 1
}

/// The bits of `s`, each byte unpacked least-significant-bit first.
pub open spec fn bits_of_bytes(s: Seq<u8>) -> Seq<bool> {
    Seq::new(s.len() * 8, |k: int| byte_bit(s[k / 8], (k % 8) as u8))
}

/// Appends `src` to `dst`.
pub fn push_bytes(dst: &mut Vec<u8>, src: &Vec<u8>)
    ensures
        final(dst)@ == old(dst)@ + src@,
{
    let mut i: usize = 0;
    while i < src.len()
        invariant
            i <= src@.len(),
            dst@ == old(dst)@ + src@.take(i as int),
        decreases src@.len() - i,
    {
        dst.push(src[i]);
        proof {
            assert(dst@ =~= old(dst)@ + src@.take(i as int + 1));
        }
        i = i + 1;
    }
    proof {
        assert(dst@ =~= old(dst)@ + src@);
    }
}

/// Expands the bytes into bits, least significant bit of each byte first.
pub fn to_bits_lsb(bytes: &Vec<u8>) -> (r: Vec<bool>)
    ensures
        r@ == bits_of_bytes(bytes@),
{
    let mut r: Vec<bool> = Vec::new();
    let mut i: usize = 0;
    while i < bytes.len()
        invariant
            i <= bytes@.len(),
            r@.len() == i * 8,
            forall|k: int| 0 <= k < i * 8 ==> r@[k] == byte_bit(bytes@[k / 8], (k % 8) as u8),
        decreases bytes@.len() - i,
    {
        let b = bytes[i];
        let mut j: u8 = 0;
        while j < 8
            invariant
                i < bytes@.len(),
                b == bytes@[i as int],
                j <= 8,
                r@.len() == i * 8 + j,
                forall|k: int| 0 <= k < i * 8 + j ==> r@[k] == byte_bit(bytes@[k / 8], (k % 8) as u8),
            decreases 8 - j,
        {
            r.push(((b >> j) & 1) == 1);
            proof {
                let k: int = i as int * 8 + j as int;
                assert(k / 8 == i as int && k % 8 == j as int) by (nonlinear_arith)
                    requires
                        0 <= i,
                        0 <= j < 8,
                        k == i as int * 8 + j as int,
                ;
                assert((k % 8) as u8 == j);
            }
            j = j + 1;
        }
        i = i + 1;
    }
    proof {
        assert(r@ =~= bits_of_bytes(bytes@));
    }
    r
}

/// Two distinct bytes differ at some bit position.
pub proof fn lemma_byte_bits_differ(x: u8, y: u8)
    requires
        x != y,
    ensures
        exists|j: u8| j < 8 && byte_bit(x, j) != byte_bit(y, j),
{
    assert(byte_bit(x, 0) != byte_bit(y, 0) || byte_bit(x, 1) != byte_bit(y, 1)
        || byte_bit(x, 2) != byte_bit(y, 2) || byte_bit(x, 3) != byte_bit(y, 3)
        || byte_bit(x, 4) != byte_bit(y, 4) || byte_bit(x, 5) != byte_bit(y, 5)
        || byte_bit(x, 6) != byte_bit(y, 6) || byte_bit(x, 7) != byte_bit(y, 7)) by (bit_vector)
        requires
            x != y,
    ;
}

/// Two byte sequences of equal length that differ do so at some index.
pub proof fn lemma_seq_neq_at_index(s1: Seq<u8>, s2: Seq<u8>)
    requires
        s1.len() == s2.len(),
        s1 != s2,
    ensures
        exists|i: int| 0 <= i < s1.len() && s1[i] != s2[i],
{
    if !(exists|i: int| 0 <= i < s1.len() && s1[i] != s2[i]) {
        assert(s1 =~= s2);
        assert(false);
    }
}

/// Bit expansion is injective: distinct byte strings expand to distinct bit
/// strings.
pub proof fn lemma_bits_of_bytes_injective(s1: Seq<u8>, s2: Seq<u8>)
    requires
        s1 != s2,
    ensures
        bits_of_bytes(s1) != bits_of_bytes(s2),
{
    if s1.len() == s2.len() {
        lemma_seq_neq_at_index(s1, s2);
        let i = choose|i: int| 0 <= i < s1.len() && s1[i] != s2[i];
        lemma_byte_bits_differ(s1[i], s2[i]);
        let j = choose|j: u8| j < 8 && byte_bit(s1[i], j) != byte_bit(s2[i], j);
        let k: int = i * 8 + j as int;
        assert(k / 8 == i && k % 8 == j as int) by (nonlinear_arith)
            requires
                0 <= i,
                0 <= j < 8,
                k == i * 8 + j as int,
        ;
        assert(0 <= k < s1.len() * 8) by (nonlinear_arith)
            requires
                0 <= i < s1.len(),
                0 <= j < 8,
                k == i * 8 + j as int,
        ;
        assert((k % 8) as u8 == j);
        assert(bits_of_bytes(s1)[k] == byte_bit(s1[i], j));
        assert(bits_of_bytes(s2)[k] == byte_bit(s2[i], j));
        assert(bits_of_bytes(s1) != bits_of_bytes(s2));
    } else {
        assert(bits_of_bytes(s1).len() != bits_of_bytes(s2).len());
        assert(bits_of_bytes(s1) != bits_of_bytes(s2));
    }
}

} // verus!

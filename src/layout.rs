use vstd::prelude::*;
use crate::state::Key;

verus! {

/// Offset of the `amount` field in a token account.
pub const TOKEN_AMOUNT_OFFSET: usize = 64;

/// Offset of the base mint in the liquidity pool's account data.
pub const POOL_BASE_MINT_OFFSET: usize = 43;

/// `256^n`: the number of distinct values of `n` bytes.
pub open spec fn byte_span(n: nat) -> nat
    decreases n,
{
    if n == 0 {
        1
    } else {
        256 * byte_span((n - 1) as nat)
    }
}

/// The number whose little-endian encoding is `s`.
pub open spec fn le_value(s: Seq<u8>) -> nat
    decreases s.len(),
{
    if s.len() == 0 {
        0
    } else {
        (le_value(s.drop_last()) + byte_span((s.len() - 1) as nat) * s.last()) as nat
    }
}

/// The key whose 32 bytes are `s`.
pub open spec fn key_of_bytes(s: Seq<u8>) -> Key
    recommends
        s.len() == 32,
{
    Key {
        w0: le_value(s.subrange(0, 8)) as u64,
        w1: le_value(s.subrange(8, 16)) as u64,
        w2: le_value(s.subrange(16, 24)) as u64,
        w3: le_value(s.subrange(24, 32)) as u64,
    }
}

/// Eight bytes span the `u64` range.
pub proof fn lemma_byte_span_eight()
    ensures
        byte_span(8) == 0x1_0000_0000_0000_0000,
{
    reveal_with_fuel(byte_span, 9);
}

/// A little-endian value is below the span of its bytes.
pub proof fn lemma_le_value_bound(s: Seq<u8>)
    ensures
        le_value(s) < byte_span(s.len()),
    decreases s.len(),
{
    if s.len() > 0 {
        let n = (s.len() - 1) as nat;
        lemma_le_value_bound(s.drop_last());
        let b = s.last();
        let p = byte_span(n);
        assert(p * b <= p * 255) by (nonlinear_arith)
            requires
                b <= 255,
        ;
    }
}

/// Reads the little-endian `u64` stored at `data[offset..offset + 8]`.
pub fn read_u64_le(data: &[u8], offset: usize) -> (r: u64)
    requires
        offset + 8 <= data@.len(),
    ensures
        r == le_value(data@.subrange(offset as int, offset + 8)),
{
    let n: usize = data.len();
    let mut v: u128 = 0;
    let mut scale: u128 = 1;
    let mut i: usize = 0;
    while i < 8
        invariant
            i <= 8,
            n == data@.len(),
            offset + 8 <= n,
            v == le_value(data@.subrange(offset as int, offset + i)),
            scale == byte_span(i as nat),
            scale <= 0x1_0000_0000_0000_0000,
        decreases 8 - i,
    {
        let b = data[offset + i];
        proof {
            let s = data@.subrange(offset as int, offset + i + 1);
            assert(s.drop_last() =~= data@.subrange(offset as int, offset + i));
            assert(s.last() == b);
            lemma_le_value_bound(data@.subrange(offset as int, offset + i));
            reveal_with_fuel(byte_span, 9);
            assert(scale * (b as int) <= scale * 255) by (nonlinear_arith)
                requires
                    b <= 255,
            ;
        }
        v = v + scale * (b as u128);
        scale = scale * 256;
        i = i + 1;
    }
    proof {
        lemma_le_value_bound(data@.subrange(offset as int, offset + 8));
        lemma_byte_span_eight();
    }
    v as u64
}

/// Reads the 32-byte key stored at `data[offset..offset + 32]`.
pub fn read_key(data: &[u8], offset: usize) -> (r: Key)
    requires
        offset + 32 <= data@.len(),
    ensures
        r == key_of_bytes(data@.subrange(offset as int, offset + 32)),
{
    let n: usize = data.len();
    assert(offset + 32 <= n);
    let k = Key {
        w0: read_u64_le(data, offset),
        w1: read_u64_le(data, offset + 8),
        w2: read_u64_le(data, offset + 16),
        w3: read_u64_le(data, offset + 24),
    };
    proof {
        let s = data@.subrange(offset as int, offset + 32);
        assert(s.subrange(0, 8) =~= data@.subrange(offset as int, offset + 8));
        assert(s.subrange(8, 16) =~= data@.subrange(offset + 8, offset + 16));
        assert(s.subrange(16, 24) =~= data@.subrange(offset + 16, offset + 24));
        assert(s.subrange(24, 32) =~= data@.subrange(offset + 24, offset + 32));
    }
    k
}

/// Appends the eight little-endian bytes of `x` to `out`.
pub fn push_u64_le(out: &mut Vec<u8>, x: u64)
    ensures
        final(out)@.len() == old(out)@.len() + 8,
        final(out)@.subrange(0, old(out)@.len() as int) == old(out)@,
        le_value(final(out)@.subrange(old(out)@.len() as int, old(out)@.len() + 8int)) == x,
{
    let ghost start = out@.len();
    proof {
        lemma_byte_span_eight();
        assert(out@.subrange(start as int, start as int) =~= Seq::<u8>::empty());
        assert(byte_span(0) == 1);
    }
    let mut v: u64 = x;
    let mut i: usize = 0;
    while i < 8
        invariant
            i <= 8,
            out@.len() == start + i,
            out@.subrange(0, start as int) == old(out)@,
            x == le_value(out@.subrange(start as int, start + i)) + byte_span(i as nat) * v,
            v < byte_span((8 - i) as nat),
        decreases 8 - i,
    {
        let b: u8 = (v % 256) as u8;
        let ghost prev = out@;
        out.push(b);
        proof {
            let s = out@.subrange(start as int, start + i + 1);
            assert(s.drop_last() =~= prev.subrange(start as int, start + i));
            assert(s.last() == b);
            assert(out@.subrange(0, start as int) =~= prev.subrange(0, start as int));
            let p = byte_span(i as nat);
            assert(p * v == p * b + (256 * p) * (v / 256)) by (nonlinear_arith)
                requires
                    b == v % 256,
            ;
            assert(byte_span((8 - i) as nat) == 256 * byte_span((8 - i - 1) as nat));
        }
        v = v / 256;
        i = i + 1;
    }
}

} // verus!

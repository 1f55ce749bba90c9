//! Fixed-width little-endian integers, as the blob header stores them.

use vstd::prelude::*;

verus! {

/// The `n` low bytes of `v`, least significant first.
pub open spec fn le_bytes(v: nat, n: nat) -> Seq<u8>
    decreases n,
{
    if n == 0 {
        Seq::empty()
    } else {
        seq![(v % 256) as u8] + le_bytes(v / 256, (n - 1) as nat)
    }
}

/// The number that `bytes` spell, least significant byte first.
pub open spec fn le_value(bytes: Seq<u8>) -> nat
    decreases bytes.len(),
{
    if bytes.len() == 0 {
        0
    } else {
        bytes[0] as nat + 256 * le_value(bytes.drop_first())
    }
}

/// `256^n`.
pub open spec fn pow256(n: nat) -> nat
    decreases n,
{
    if n == 0 {
        1
    } else {
        256 * pow256((n - 1) as nat)
    }
}

/// `le_bytes` gives exactly `n` bytes.
pub proof fn lemma_le_bytes_len(v: nat, n: nat)
    ensures
        le_bytes(v, n).len() == n,
    decreases n,
{
    if n > 0 {
        lemma_le_bytes_len(v / 256, (n - 1) as nat);
    }
}

/// A sequence of bytes spells a number below `256^len`.
pub proof fn lemma_le_value_bound(bytes: Seq<u8>)
    ensures
        le_value(bytes) < pow256(bytes.len()),
    decreases bytes.len(),
{
    if bytes.len() > 0 {
        lemma_le_value_bound(bytes.drop_first());
        let p = pow256((bytes.len() - 1) as nat);
        let r = le_value(bytes.drop_first());
        assert(bytes[0] as nat + 256 * r < 256 * p) by (nonlinear_arith)
            requires
                r < p,
                bytes[0] < 256,
        ;
    }
}

/// Writing a number that fits `n` bytes and reading the bytes back gives the
/// number.
pub proof fn lemma_le_roundtrip(v: nat, n: nat)
    requires
        v < pow256(n),
    ensures
        le_value(le_bytes(v, n)) == v,
    decreases n,
{
    if n > 0 {
        let b = le_bytes(v, n);
        assert(b.drop_first() =~= le_bytes(v / 256, (n - 1) as nat));
        assert(v / 256 < pow256((n - 1) as nat)) by (nonlinear_arith)
            requires
                v < 256 * pow256((n - 1) as nat),
        ;
        lemma_le_roundtrip(v / 256, (n - 1) as nat);
    }
}

/// `256^8` is one more than `u64::MAX`, and `256^4` one more than `u32::MAX`.
pub proof fn lemma_pow256_widths()
    ensures
        pow256(4) == 0x1_0000_0000,
        pow256(8) == 0x1_0000_0000_0000_0000,
{
    reveal_with_fuel(pow256, 9);
}

/// Appends the `n` low bytes of `v`, least significant first.
pub fn push_le(buf: &mut Vec<u8>, v: u64, n: usize)
    requires
        n <= 8,
    ensures
        final(buf)@ == old(buf)@ + le_bytes(v as nat, n as nat),
{
    let mut rest: u64 = v;
    let mut i: usize = 0;
    let ghost start = buf@;
    let ghost mut written: Seq<u8> = Seq::empty();
    while i < n
        invariant
            i <= n <= 8,
            buf@ == start + written,
            written + le_bytes(rest as nat, (n - i) as nat) == le_bytes(v as nat, n as nat),
        decreases n - i,
    {
        let b: u8 = (rest % 256) as u8;
        buf.push(b);
        proof {
            let tail = le_bytes(rest as nat / 256, (n - i - 1) as nat);
            assert(le_bytes(rest as nat, (n - i) as nat) == seq![b] + tail);
            assert(written.push(b) + tail =~= written + (seq![b] + tail));
            written = written.push(b);
            assert(buf@ =~= start + written);
        }
        rest = rest / 256;
        i = i + 1;
    }
    proof {
        assert(le_bytes(rest as nat, 0) =~= Seq::<u8>::empty());
        assert(written + Seq::<u8>::empty() =~= written);
    }
}

/// Reads the `n` bytes at `pos` as a number, least significant byte first.
pub fn read_le(bytes: &[u8], pos: usize, n: usize) -> (v: u64)
    requires
        n <= 8,
        pos + n <= bytes@.len(),
    ensures
        v as nat == le_value(bytes@.subrange(pos as int, pos + n)),
{
    let mut v: u64 = 0;
    let mut k: usize = n;
    let total = bytes.len();
    proof {
        assert(bytes@.subrange(pos + n, pos + n).len() == 0);
        lemma_pow256_widths();
    }
    while k > 0
        invariant
            k <= n <= 8,
            pos + n <= bytes@.len() == total,
            v as nat == le_value(bytes@.subrange(pos + k, pos + n)),
            pow256(8) == 0x1_0000_0000_0000_0000,
        decreases k,
    {
        k = k - 1;
        let b: u8 = bytes[pos + k];
        proof {
            let hi = bytes@.subrange(pos + k + 1, pos + n);
            let all = bytes@.subrange(pos + k, pos + n);
            assert(all.drop_first() =~= hi);
            assert(all[0] == b);
            lemma_le_value_bound(all);
            lemma_pow256_mono(all.len(), 8);
        }
        v = v * 256 + b as u64;
    }
    v
}

/// `256^a <= 256^b` for `a <= b`.
pub proof fn lemma_pow256_mono(a: nat, b: nat)
    requires
        a <= b,
    ensures
        pow256(a) <= pow256(b),
    decreases b,
{
    if a < b {
        lemma_pow256_mono(a, (b - 1) as nat);
    }
}

} // verus!

//! Big-endian unsigned integers read from byte sequences.
use vstd::prelude::*;

verus! {

/// The unsigned number that the bytes of `s` spell in big-endian order
/// (most significant byte first); the empty sequence spells 0.
pub open spec fn be_value(s: Seq<u8>) -> nat
    decreases s.len(),
{
    if s.len() == 0 {
        0
    } else {
        be_value(s.drop_last()) * 256 + s.last() as nat
    }
}

/// `256` raised to the power `n`.
pub open spec fn pow256(n: nat) -> nat
    decreases n,
{
    if n == 0 {
        1
    } else {
        256 * pow256((n - 1) as nat)
    }
}

/// `n` bytes spell a number below `256^n`.
pub proof fn lemma_be_value_bound(s: Seq<u8>)
    ensures
        be_value(s) < pow256(s.len()),
    decreases s.len(),
{
    if s.len() > 0 {
        let d = s.drop_last();
        lemma_be_value_bound(d);
        let a = be_value(d);
        let p = pow256(d.len());
        let b = s.last();
        assert(a * 256 + b < 256 * p) by (nonlinear_arith)
            requires
                a < p,
                b < 256,
        ;
    }
}

/// `256^i <= 256^j` when `i <= j`.
pub proof fn lemma_pow256_monotone(i: nat, j: nat)
    requires
        i <= j,
    ensures
        pow256(i) <= pow256(j),
    decreases j,
{
    if i < j {
        lemma_pow256_monotone(i, (j - 1) as nat);
    }
}

/// The values of `pow256` that the fixed-width readers need.
pub proof fn lemma_pow256_values()
    ensures
        pow256(4) == 0x1_0000_0000,
        pow256(7) == 0x100_0000_0000_0000,
        pow256(8) == 0x1_0000_0000_0000_0000,
{
    reveal_with_fuel(pow256, 9);
}

/// Four bytes spell `b0·2^24 + b1·2^16 + b2·2^8 + b3`.
pub proof fn lemma_be_value_4(s: Seq<u8>)
    requires
        s.len() == 4,
    ensures
        be_value(s) == s[0] * 0x100_0000 + s[1] * 0x1_0000 + s[2] * 0x100 + s[3],
{
    let s3 = s.drop_last();
    let s2 = s3.drop_last();
    let s1 = s2.drop_last();
    let s0 = s1.drop_last();
    assert(be_value(s0) == 0);
    assert(be_value(s1) == s[0]);
    assert(be_value(s2) == s[0] * 0x100 + s[1]);
    assert(be_value(s3) == s[0] * 0x1_0000 + s[1] * 0x100 + s[2]);
}

/// Eight bytes spell `b0·2^56 + b1·2^48 + ... + b6·2^8 + b7`.
pub proof fn lemma_be_value_8(s: Seq<u8>)
    requires
        s.len() == 8,
    ensures
        be_value(s) == s[0] * 0x100_0000_0000_0000 + s[1] * 0x1_0000_0000_0000 + s[2]
            * 0x100_0000_0000 + s[3] * 0x1_0000_0000 + s[4] * 0x100_0000 + s[5] * 0x1_0000
            + s[6] * 0x100 + s[7],
{
    let s7 = s.drop_last();
    let s6 = s7.drop_last();
    let s5 = s6.drop_last();
    let s4 = s5.drop_last();
    lemma_be_value_4(s4);
    assert(s4[0] == s[0] && s4[1] == s[1] && s4[2] == s[2] && s4[3] == s[3]);
    assert(be_value(s5) == be_value(s4) * 0x100 + s[4]);
    assert(be_value(s6) == be_value(s5) * 0x100 + s[5]);
    assert(be_value(s7) == be_value(s6) * 0x100 + s[6]);
}

/// Reads the `n` bytes of `data` that start at `start` as a big-endian number.
pub fn read_be(data: &[u8], start: usize, n: usize) -> (v: u64)
    requires
        start + n <= data.len(),
        n <= 8,
    ensures
        v == be_value(data@.subrange(start as int, start + n)),
        v < pow256(n as nat),
{
    let mut acc: u64 = 0;
    let mut i: usize = 0;
    while i < n
        invariant
            i <= n,
            n <= 8,
            start + n <= data.len(),
            acc == be_value(data@.subrange(start as int, start + i)),
        decreases n - i,
    {
        proof {
            lemma_be_value_bound(data@.subrange(start as int, start + i));
            lemma_pow256_monotone(i as nat, 7);
            lemma_pow256_values();
        }
        let b: u8 = data[start + i];
        assert(acc * 256 + b <= 0xffff_ffff_ffff_ffff) by (nonlinear_arith)
            requires
                acc < 0x100_0000_0000_0000,
        ;
        acc = acc * 256 + b as u64;
        i = i + 1;
        assert(data@.subrange(start as int, start + i).drop_last() =~= data@.subrange(
            start as int,
            start + i - 1,
        ));
    }
    proof {
        lemma_be_value_bound(data@.subrange(start as int, start + n));
    }
    acc
}

} // verus!

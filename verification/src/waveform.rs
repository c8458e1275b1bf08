use vstd::prelude::*;

verus! {

/// Number of samples in the visualization snapshot relayed to the renderer.
pub const WAVEFORM_LENGTH: usize = 1024;

/// Index into a block of `m` frames that snapshot slot `i` of `n` reads:
/// the block is decimated by mapping slot `i` to frame `i * m / n`.
pub open spec fn decimated_index(i: int, n: int, m: int) -> int {
    i * m / n
}

/// Frame of a block of `m` frames that snapshot slot `i` of `n` reads.
/// The index never reaches `m`, so every slot reads inside the block.
pub fn decimation_index(i: usize, n: usize, m: usize) -> (j: usize)
    requires
        0 < n,
        i < n,
        i * m <= usize::MAX,
    ensures
        j == decimated_index(i as int, n as int, m as int),
        m > 0 ==> j < m,
{
    proof {
        if m > 0 {
            vstd::arithmetic::mul::lemma_mul_strict_inequality(i as int, n as int, m as int);
            vstd::arithmetic::div_mod::lemma_multiply_divide_lt(
                i as int * m as int,
                n as int,
                m as int,
            );
        }
    }
    (i * m) / n
}

/// The full decimation map: the frame each of the `n` snapshot slots reads
/// from a block of `m` frames.
pub fn decimation_indices(n: usize, m: usize) -> (v: Vec<usize>)
    requires
        0 < n,
        n * m <= usize::MAX,
    ensures
        v@.len() == n,
        forall|i: int| 0 <= i < n ==> #[trigger] v@[i]
            == decimated_index(i, n as int, m as int),
        m > 0 ==> forall|i: int| 0 <= i < n ==> #[trigger] v@[i] < m,
{
    let mut v: Vec<usize> = Vec::new();
    let mut i: usize = 0;
    while i < n
        invariant
            i <= n,
            0 < n,
            n * m <= usize::MAX,
            v@.len() == i,
            forall|k: int| 0 <= k < i ==> #[trigger] v@[k]
                == decimated_index(k, n as int, m as int),
            m > 0 ==> forall|k: int| 0 <= k < i ==> #[trigger] v@[k] < m,
        decreases n - i,
    {
        proof {
            vstd::arithmetic::mul::lemma_mul_inequality(i as int, n as int, m as int);
        }
        let j = decimation_index(i, n, m);
        v.push(j);
        i = i + 1;
    }
    v
}

} // verus!

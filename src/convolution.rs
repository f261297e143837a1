use vstd::prelude::*;

verus! {

/// Advances a unit-hydrograph buffer by one day.
///
/// Slot `i` of the buffer holds what is due `i` days from now. Each slot takes
/// over what its right neighbour held, combined with its share of today's
/// injection (`shares[i]`); the last slot holds its share alone.
pub fn convolve_step<T: Copy, F: Fn(T, T) -> T>(buffer: &mut Vec<T>, shares: &Vec<T>, combine: F)
    requires
        old(buffer).len() == shares.len(),
        forall|carry: T, share: T| call_requires(combine, (carry, share)),
    ensures
        final(buffer).len() == old(buffer).len(),
        forall|i: int|
            0 <= i < old(buffer).len() - 1 ==> call_ensures(
                combine,
                (old(buffer)[i + 1], shares[i]),
                #[trigger] final(buffer)[i],
            ),
        old(buffer).len() > 0 ==> final(buffer)[old(buffer).len() - 1] == shares[shares.len()
            - 1],
{
    let n = buffer.len();
    if n == 0 {
        return ;
    }
    let mut i: usize = 0;
    while i + 1 < n
        invariant
            n == old(buffer).len(),
            n == shares.len(),
            n > 0,
            i < n,
            buffer.len() == n,
            forall|carry: T, share: T| call_requires(combine, (carry, share)),
            forall|j: int| i <= j < n ==> buffer[j] == old(buffer)[j],
            forall|j: int|
                0 <= j < i ==> call_ensures(
                    combine,
                    (old(buffer)[j + 1], shares[j]),
                    #[trigger] buffer[j],
                ),
        decreases n - i,
    {
        let next = combine(buffer[i + 1], shares[i]);
        buffer.set(i, next);
        i = i + 1;
    }
    buffer.set(n - 1, shares[n - 1]);
}

} // verus!

//! Numeric helpers for buffer sizing: power-of-two rounding for segment
//! capacities and the byte length of a pixel buffer of given dimensions.

use vstd::prelude::*;

verus! {

/// Smallest power of two that is at least `n` (and at least 1).
pub open spec fn spec_next_pow2(n: nat) -> nat
    decreases n,
{
    if n <= 1 {
        1
    } else {
        2 * spec_next_pow2(((n + 1) / 2) as nat)
    }
}

/// The rounded capacity is at least the request and less than twice it.
pub proof fn lemma_next_pow2_bounds(n: nat)
    ensures
        spec_next_pow2(n) >= 1,
        spec_next_pow2(n) >= n,
        n >= 1 ==> spec_next_pow2(n) < 2 * n,
    decreases n,
{
    if n > 1 {
        let m = ((n + 1) / 2) as nat;
        lemma_next_pow2_bounds(m);
        let s = spec_next_pow2(m);
        if n % 2 == 0 {
            assert(2 * m == n);
        } else {
            assert(2 * m == n + 1);
            if m >= 2 {
                // `s` is then twice a smaller value, hence even, while `n` is odd.
                assert(s == 2 * spec_next_pow2(((m + 1) / 2) as nat));
                assert(s != n);
            }
        }
    }
}

/// Round a capacity request up to the next power of two.
pub fn next_pow2(n: usize) -> (r: usize)
    requires
        n <= usize::MAX / 2 + 1,
    ensures
        r == spec_next_pow2(n as nat),
    decreases n,
{
    if n <= 1 {
        1
    } else {
        let m = (n + 1) / 2;
        proof {
            lemma_next_pow2_bounds(n as nat);
            lemma_next_pow2_bounds(m as nat);
        }
        2 * next_pow2(m)
    }
}

/// The capacity a backing region has after serving a request of
/// `request_bytes`: requests are rounded up to a power of two, and the
/// region is grown when the rounded request exceeds it, never shrunk.
pub open spec fn grown_capacity(cap: nat, request_bytes: nat) -> nat {
    if spec_next_pow2(request_bytes) > cap {
        spec_next_pow2(request_bytes)
    } else {
        cap
    }
}

/// One growth step never shrinks the region and always covers the request.
pub proof fn lemma_grown_capacity_step(cap: nat, request_bytes: nat)
    ensures
        grown_capacity(cap, request_bytes) >= cap,
        grown_capacity(cap, request_bytes) >= spec_next_pow2(request_bytes),
        grown_capacity(cap, request_bytes) >= request_bytes,
{
    lemma_next_pow2_bounds(request_bytes);
}

/// Growing, shrinking, then growing again never leaves the backing region
/// below the largest capacity any of the three requests demanded.
pub proof fn lemma_capacity_never_below_max_request(c0: nat, r1: nat, r2: nat, r3: nat)
    ensures
        ({
            let c3 = grown_capacity(grown_capacity(grown_capacity(c0, r1), r2), r3);
            &&& c3 >= spec_next_pow2(r1) && c3 >= r1
            &&& c3 >= spec_next_pow2(r2) && c3 >= r2
            &&& c3 >= spec_next_pow2(r3) && c3 >= r3
        }),
{
    lemma_grown_capacity_step(c0, r1);
    lemma_grown_capacity_step(grown_capacity(c0, r1), r2);
    lemma_grown_capacity_step(grown_capacity(grown_capacity(c0, r1), r2), r3);
}

/// Byte length of a pixel buffer of the given dimensions, four bytes a pixel.
pub fn total_len(width: u16, height: u16) -> (r: usize)
    requires
        4 * (width as nat) * (height as nat) <= usize::MAX,
    ensures
        r == 4 * (width as nat) * (height as nat),
{
    let w = width as usize;
    let h = height as usize;
    assert(w * h * 4 == 4 * (width as nat) * (height as nat)) by (nonlinear_arith)
        requires
            w == width as nat,
            h == height as nat,
    ;
    w * h * 4
}

} // verus!

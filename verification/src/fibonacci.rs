use vstd::prelude::*;

verus! {

/// The Fibonacci numbers: 0, 1, 1, 2, 3, 5, ...
pub open spec fn fib(n: nat) -> nat
    decreases n,
{
    if n == 0 {
        0
    } else if n == 1 {
        1
    } else {
        fib((n - 2) as nat) + fib((n - 1) as nat)
    }
}

/// The Fibonacci numbers two at a time, `(fib(n), fib(n + 1))`, by one recursive call
/// per step.
spec fn fib_pair(n: nat) -> (nat, nat)
    decreases n,
{
    if n == 0 {
        (0, 1)
    } else {
        let p = fib_pair((n - 1) as nat);
        (p.1, p.0 + p.1)
    }
}

proof fn lemma_fib_pair(n: nat)
    ensures
        fib_pair(n) == (fib(n), fib(n + 1)),
    decreases n,
{
    if n > 0 {
        lemma_fib_pair((n - 1) as nat);
    }
}

/// The Fibonacci numbers never decrease.
pub proof fn lemma_fib_monotonic(i: nat, j: nat)
    requires
        i <= j,
    ensures
        fib(i) <= fib(j),
    decreases j - i,
{
    if i < j {
        lemma_fib_monotonic(i, (j - 1) as nat);
        if j >= 2 {
            assert(fib(j) == fib((j - 2) as nat) + fib((j - 1) as nat));
        }
    }
}

/// 93 is the largest input whose Fibonacci number fits in a `u64`.
pub proof fn lemma_largest_input_that_fits()
    ensures
        fib(93) <= u64::MAX,
        fib(94) > u64::MAX,
{
    assert(fib_pair(8) == (21nat, 34nat)) by {
        reveal_with_fuel(fib_pair, 9);
    }
    assert(fib_pair(16) == (987nat, 1597nat)) by {
        reveal_with_fuel(fib_pair, 9);
    }
    assert(fib_pair(24) == (46368nat, 75025nat)) by {
        reveal_with_fuel(fib_pair, 9);
    }
    assert(fib_pair(32) == (2178309nat, 3524578nat)) by {
        reveal_with_fuel(fib_pair, 9);
    }
    assert(fib_pair(40) == (102334155nat, 165580141nat)) by {
        reveal_with_fuel(fib_pair, 9);
    }
    assert(fib_pair(48) == (4807526976nat, 7778742049nat)) by {
        reveal_with_fuel(fib_pair, 9);
    }
    assert(fib_pair(56) == (225851433717nat, 365435296162nat)) by {
        reveal_with_fuel(fib_pair, 9);
    }
    assert(fib_pair(64) == (10610209857723nat, 17167680177565nat)) by {
        reveal_with_fuel(fib_pair, 9);
    }
    assert(fib_pair(72) == (498454011879264nat, 806515533049393nat)) by {
        reveal_with_fuel(fib_pair, 9);
    }
    assert(fib_pair(80) == (23416728348467685nat, 37889062373143906nat)) by {
        reveal_with_fuel(fib_pair, 9);
    }
    assert(fib_pair(88) == (1100087778366101931nat, 1779979416004714189nat)) by {
        reveal_with_fuel(fib_pair, 9);
    }
    assert(fib_pair(93) == (12200160415121876738nat, 19740274219868223167nat)) by {
        reveal_with_fuel(fib_pair, 9);
    }
    lemma_fib_pair(93);
}

/// The largest input that the proof service answers.
pub const MAX_FIB_INPUT: u32 = 93;

/// Whether `fib(n)` fits in a `u64`: exactly when `n <= MAX_FIB_INPUT`.
pub proof fn lemma_fits_iff_at_most_max(n: nat)
    ensures
        fib(n) <= u64::MAX <==> n <= MAX_FIB_INPUT,
{
    lemma_largest_input_that_fits();
    if n <= 93 {
        lemma_fib_monotonic(n, 93);
    } else {
        lemma_fib_monotonic(94, n);
    }
}

/// Computes the `n`-th Fibonacci number iteratively. Above `MAX_FIB_INPUT` the number
/// does not fit in a `u64` (see `lemma_fits_iff_at_most_max`).
pub fn fibonacci(n: u32) -> (r: u64)
    requires
        n <= MAX_FIB_INPUT,
    ensures
        r == fib(n as nat),
{
    if n <= 1 {
        return n as u64;
    }
    proof {
        lemma_fits_iff_at_most_max(n as nat);
    }
    let mut a: u64 = 0;
    let mut b: u64 = 1;
    let mut i: u32 = 2;
    while i <= n
        invariant
            2 <= i <= n + 1,
            n <= MAX_FIB_INPUT,
            fib(n as nat) <= u64::MAX,
            a == fib((i - 2) as nat),
            b == fib((i - 1) as nat),
        decreases n + 1 - i,
    {
        proof {
            lemma_fib_monotonic(i as nat, n as nat);
        }
        let temp = a + b;
        a = b;
        b = temp;
        i = i + 1;
    }
    b
}

} // verus!

use vstd::prelude::*;

verus! {

/// The Fibonacci numbers: 0, 1, 1, 2, 3, 5, ...
pub open spec fn fib(n: nat) -> nat
    decreases n,
{
    if n == 0 {
        0
    } else if n == 1 {
        1
    } else {
        fib((n - 2) as nat) + fib((n - 1) as nat)
    }
}

/// The next pair after `(a, b)`, `(b, a + b)`, while `a + b` fits in a `u64`.
pub open spec fn advance_spec(a: u64, b: u64) -> Option<(u64, u64)> {
    if a + b <= u64::MAX {
        Some((b, (a + b) as u64))
    } else {
        None
    }
}

/// One step of the Fibonacci generator: from the pair `(an, an_1)` to
/// `(an_1, an + an_1)`, or `None` once the sum no longer fits in a `u64`,
/// which ends the generator.
pub fn fib_advance(an: u64, an_1: u64) -> (r: Option<(u64, u64)>)
    ensures
        r == advance_spec(an, an_1),
{
    match an.checked_add(an_1) {
        Some(an_2) => Some((an_1, an_2)),
        None => None,
    }
}

/// The `i`-th value that the Fibonacci generator yields (counting from 0): it
/// yields its first number and then, at each step, the newly computed one, so
/// after `fib(0)` come `fib(2)`, `fib(3)`, ...
pub open spec fn yielded(i: nat) -> nat {
    if i == 0 {
        fib(0)
    } else {
        fib(i + 1)
    }
}

/// The state of the Fibonacci generator's body between two of its yields.
pub struct FibCursor {
    an: u64,
    an_1: u64,
    started: bool,
    count: Ghost<nat>,
}

impl FibCursor {
    /// How many values the generator has yielded so far.
    pub closed spec fn count(&self) -> nat {
        self.count@
    }

    #[verifier::type_invariant]
    spec fn inv(&self) -> bool {
        if !self.started {
            self.count@ == 0 && self.an == 0 && self.an_1 == 1
        } else {
            &&& self.count@ >= 1
            &&& self.an == fib((self.count@ - 1) as nat)
            &&& self.an_1 == fib(self.count@)
        }
    }

    /// A generator body that has yielded nothing yet.
    pub fn new() -> (c: Self)
        ensures
            c.count() == 0,
    {
        FibCursor { an: 0, an_1: 1, started: false, count: Ghost(0) }
    }

    /// The value of the generator's next yield, or `None` once the next
    /// Fibonacci number no longer fits in a `u64` and the body returns; after
    /// that it keeps answering `None`.
    pub fn next(&mut self) -> (r: Option<u64>)
        ensures
            match r {
                Some(v) => v == yielded(old(self).count()) && final(self).count() == old(self).count() + 1,
                None => yielded(old(self).count()) > u64::MAX && final(self).count() == old(self).count(),
            },
    {
        proof {
            use_type_invariant(&*self);
        }
        if !self.started {
            *self = FibCursor { an: 0, an_1: 1, started: true, count: Ghost(1) };
            return Some(0);
        }
        let ghost c = self.count@;
        assert(fib(c + 1) == fib((c - 1) as nat) + fib(c));
        match fib_advance(self.an, self.an_1) {
            Some((a, b)) => {
                *self = FibCursor { an: a, an_1: b, started: true, count: Ghost(c + 1) };
                Some(b)
            },
            None => None,
        }
    }
}

/// Stepping from two consecutive Fibonacci numbers gives the next two, as
/// long as the new one fits in a `u64`, and stops exactly when it does not.
pub proof fn lemma_advance_follows_fib(k: nat)
    requires
        fib(k + 1) <= u64::MAX,
    ensures
        advance_spec(fib(k) as u64, fib(k + 1) as u64) == (if fib(k + 2) <= u64::MAX {
            Some((fib(k + 1) as u64, fib(k + 2) as u64))
        } else {
            None::<(u64, u64)>
        }),
{
    lemma_fib_monotonic(k, k + 1);
    assert(fib(k + 2) == fib(k) + fib(k + 1));
}

/// The Fibonacci numbers never decrease.
pub proof fn lemma_fib_monotonic(i: nat, j: nat)
    requires
        i <= j,
    ensures
        fib(i) <= fib(j),
    decreases j - i,
{
    if i < j {
        lemma_fib_monotonic(i, (j - 1) as nat);
        if j >= 2 {
            assert(fib(j) == fib((j - 2) as nat) + fib((j - 1) as nat));
        }
    }
}

/// `fib(n + 1)` is at least `n`.
pub proof fn lemma_fib_grows(n: nat)
    ensures
        fib(n + 1) >= n,
    decreases n,
{
    if n >= 2 {
        lemma_fib_grows((n - 1) as nat);
        lemma_fib_grows((n - 2) as nat);
        assert(fib(n + 1) == fib((n - 1) as nat) + fib(n));
        lemma_fib_monotonic(1, (n - 1) as nat);
    } else if n == 1 {
        assert(fib(2) == fib(0) + fib(1));
    }
}

/// The Fibonacci generator ends: some Fibonacci number no longer fits in a
/// `u64`, so the stepping eventually answers `None`.
pub proof fn lemma_fib_overflows()
    ensures
        exists|k: nat| fib(k) > u64::MAX,
{
    let n: nat = u64::MAX as nat + 1;
    lemma_fib_grows(n);
    assert(fib(n + 1) > u64::MAX);
}

} // verus!

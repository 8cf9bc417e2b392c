//! The similarity score as an exact ratio.
//!
//! A score is kept as `matched` parts out of `total`, so that nothing is
//! rounded before a threshold is applied. As a percentage it reads
//! `100 * matched / total`.

use vstd::prelude::*;

verus! {

/// A similarity between 0 and 100 percent, held as `matched` out of `total`.
#[derive(Debug, Clone, Copy, PartialEq, Eq, Structural)]
pub struct Similarity {
    pub matched: u64,
    pub total: u64,
}

/// The score of two inputs that do not differ: 100 percent.
pub open spec fn full_score() -> Similarity {
    Similarity { matched: 1, total: 1 }
}

/// The score of inputs that cannot be compared: 0 percent.
pub open spec fn zero_score() -> Similarity {
    Similarity { matched: 0, total: 1 }
}

impl Similarity {
    /// The ratio is defined and does not exceed one.
    pub open spec fn wf(&self) -> bool {
        0 < self.total && self.matched <= self.total
    }

    /// The score is exactly 100 percent.
    pub open spec fn is_full(&self) -> bool {
        self.matched == self.total
    }

    /// The score is exactly 0 percent.
    pub open spec fn is_zero(&self) -> bool {
        self.matched == 0
    }

    /// The percentage with its fraction cut off.
    pub open spec fn percent_floor(&self) -> int {
        (100 * self.matched) / (self.total as int)
    }

    /// The score lies strictly below `percent`.
    pub open spec fn is_below(&self, percent: int) -> bool {
        100 * self.matched < percent * self.total
    }

    /// The score lies strictly above `percent`.
    pub open spec fn is_above(&self, percent: int) -> bool {
        100 * self.matched > percent * self.total
    }

    /// 100 percent.
    pub fn full() -> (s: Similarity)
        ensures
            s == full_score(),
    {
        Similarity { matched: 1, total: 1 }
    }

    /// 0 percent.
    pub fn zero() -> (s: Similarity)
        ensures
            s == zero_score(),
    {
        Similarity { matched: 0, total: 1 }
    }

    /// The percentage as a whole number, its fraction cut off.
    pub fn truncated_percent(&self) -> (p: i32)
        requires
            self.wf(),
        ensures
            p == self.percent_floor(),
            0 <= p <= 100,
    {
        let scaled: u128 = 100u128 * (self.matched as u128);
        let whole: u128 = scaled / (self.total as u128);
        assert(whole <= 100) by (nonlinear_arith)
            requires
                whole == scaled / (self.total as u128),
                scaled <= 100 * self.total,
                self.total > 0,
        ;
        whole as i32
    }
}

/// The truncated percentage is the whole number `p` with
/// `p <= 100 * matched / total < p + 1`.
pub proof fn lemma_percent_floor_bounds(s: Similarity)
    requires
        s.wf(),
    ensures
        0 <= s.percent_floor() <= 100,
        s.percent_floor() * s.total <= 100 * s.matched < (s.percent_floor() + 1) * s.total,
        s.is_full() ==> s.percent_floor() == 100,
        s.is_zero() ==> s.percent_floor() == 0,
{
    let n: int = 100 * s.matched;
    let d: int = s.total as int;
    vstd::arithmetic::div_mod::lemma_fundamental_div_mod(n, d);
    vstd::arithmetic::div_mod::lemma_mod_bound(n, d);
    let q: int = n / d;
    assert(d * q + n % d == n);
    assert(q * d == d * q) by (nonlinear_arith);
    assert((q + 1) * d == q * d + d) by (nonlinear_arith);
    assert(0 <= q <= 100) by (nonlinear_arith)
        requires
            q * d <= n,
            n < q * d + d,
            0 <= n <= 100 * d,
            d > 0,
    ;
    if s.is_full() {
        assert(q == 100) by (nonlinear_arith)
            requires
                q * d <= n,
                n < q * d + d,
                n == 100 * d,
                d > 0,
        ;
    }
    if s.is_zero() {
        assert(q == 0) by (nonlinear_arith)
            requires
                q * d <= n,
                n < q * d + d,
                n == 0,
                d > 0,
        ;
    }
}

} // verus!

//! Exact decimal numbers and rationals used for geodetic parameters.
use vstd::prelude::*;

verus! {

/// Largest number of fractional decimal digits a `Decimal` may carry.
pub const MAX_SCALE: u32 = 18;

/// Ten to the power `n`.
pub open spec fn pow10(n: nat) -> int
    decreases n,
{
    if n == 0 {
        1
    } else {
        10 * pow10((n - 1) as nat)
    }
}

/// Powers of ten are positive.
pub proof fn lemma_pow10_positive(n: nat)
    ensures
        pow10(n) >= 1,
    decreases n,
{
    if n > 0 {
        lemma_pow10_positive((n - 1) as nat);
    }
}

/// Powers of ten grow with the exponent.
pub proof fn lemma_pow10_monotone(m: nat, n: nat)
    requires
        m <= n,
    ensures
        pow10(m) <= pow10(n),
    decreases n,
{
    if m < n {
        lemma_pow10_monotone(m, (n - 1) as nat);
        lemma_pow10_positive((n - 1) as nat);
    }
}

/// The largest power of ten a `Decimal` scale may reach.
pub proof fn lemma_pow10_18()
    ensures
        pow10(18) == 1_000_000_000_000_000_000int,
{
    reveal_with_fuel(pow10, 19);
}

/// Computes ten to the power `n` for `n <= MAX_SCALE`.
pub fn pow10_exec(n: u32) -> (r: i128)
    requires
        n <= MAX_SCALE,
    ensures
        r == pow10(n as nat),
{
    let mut r: i128 = 1;
    let mut i: u32 = 0;
    while i < n
        invariant
            i <= n <= MAX_SCALE,
            r == pow10(i as nat),
        decreases n - i,
    {
        proof {
            lemma_pow10_monotone((i + 1) as nat, 18);
            assert(pow10((i + 1) as nat) == 10 * pow10(i as nat));
            lemma_pow10_18();
            lemma_pow10_positive(i as nat);
        }
        r = r * 10;
        i = i + 1;
    }
    r
}

/// A decimal number `mantissa * 10^(-scale)`, written as it appears in a
/// parameter table.
#[derive(Copy, Clone, Debug, PartialEq, Eq)]
pub struct Decimal {
    pub mantissa: i64,
    pub scale: u32,
}

impl Decimal {
    /// The scale is small enough for `10^scale` to fit in an `i64`.
    pub open spec fn wf(self) -> bool {
        self.scale <= MAX_SCALE
    }

    /// Numerator of the value over the denominator `den()`.
    pub open spec fn num(self) -> int {
        self.mantissa as int
    }

    /// Denominator of the value: `10^scale`.
    pub open spec fn den(self) -> int {
        pow10(self.scale as nat)
    }

    /// The value lies in the closed interval `[lo, hi]` of whole numbers.
    pub open spec fn within(self, lo: int, hi: int) -> bool {
        lo * self.den() <= self.num() <= hi * self.den()
    }

    /// The value is strictly positive.
    pub open spec fn is_positive(self) -> bool {
        self.mantissa > 0
    }

    /// Whether `wf()` holds.
    pub fn is_valid(&self) -> (r: bool)
        ensures
            r == self.wf(),
    {
        self.scale <= MAX_SCALE
    }
}

/// A rational number `num / den`, with a positive denominator.
#[derive(Copy, Clone, Debug, PartialEq, Eq)]
pub struct Ratio {
    pub num: i128,
    pub den: i128,
}

impl Ratio {
    pub open spec fn wf(self) -> bool {
        self.den > 0
    }

    /// This ratio has the value `n / d` (for `d > 0`).
    pub open spec fn equals(self, n: int, d: int) -> bool {
        self.num * d == n * self.den
    }
}

} // verus!

use vstd::prelude::*;

verus! {

/// Number of fractional decimal digits that every amount carries.
pub const SCALE: u32 = 4;

/// A signed fixed-point decimal: `units` counts steps of `10^-SCALE`.
#[derive(Clone, Copy, Debug, Default, PartialEq, Eq, Structural)]
pub struct Amount {
    pub units: i128,
}

/// `10` raised to `e`.
pub open spec fn pow10(e: nat) -> int
    decreases e,
{
    if e == 0 {
        1
    } else {
        10 * pow10((e - 1) as nat)
    }
}

/// Whether `x` can be held as the `units` of an amount.
pub open spec fn fits(x: int) -> bool {
    i128::MIN <= x <= i128::MAX
}

/// The value carried by an optional amount, where none counts as zero.
pub open spec fn amount_or_zero(amt: Option<Amount>) -> int {
    match amt {
        Some(a) => a.value(),
        None => 0,
    }
}

impl Amount {
    /// The value of the amount, in steps of `10^-SCALE`.
    pub open spec fn value(self) -> int {
        self.units as int
    }

    /// The zero amount.
    pub fn zero() -> (r: Amount)
        ensures
            r.value() == 0,
    {
        Amount { units: 0 }
    }

    /// The amount `mantissa * 10^-scale`, where it has at most `SCALE`
    /// fractional digits and fits; `None` otherwise.
    pub fn from_scaled(mantissa: i128, scale: u32) -> (r: Option<Amount>)
        ensures
            scale <= SCALE && fits(mantissa * pow10((SCALE - scale) as nat)) ==> r == Some(
                Amount { units: (mantissa * pow10((SCALE - scale) as nat)) as i128 },
            ),
            !(scale <= SCALE && fits(mantissa * pow10((SCALE - scale) as nat))) ==> r is None,
    {
        if scale > SCALE {
            return None;
        }
        let mut units: i128 = mantissa;
        let mut e: u32 = scale;
        while e < SCALE
            invariant
                scale <= e <= SCALE,
                units == mantissa * pow10((e - scale) as nat),
            decreases SCALE - e,
        {
            proof {
                lemma_pow10_step((e - scale) as nat);
                lemma_scaled_grows(mantissa as int, (e - scale) as nat, (SCALE - scale) as nat);
            }
            match units.checked_mul(10) {
                Some(u) => {
                    proof {
                        assert(u == mantissa * pow10((e + 1 - scale) as nat)) by (nonlinear_arith)
                            requires
                                u == units * 10,
                                units == mantissa * pow10((e - scale) as nat),
                                pow10((e + 1 - scale) as nat) == 10 * pow10((e - scale) as nat),
                        ;
                    }
                    units = u;
                },
                None => {
                    proof {
                        assert(mantissa * pow10((e + 1 - scale) as nat) == units * 10) by (
                            nonlinear_arith)
                            requires
                                units == mantissa * pow10((e - scale) as nat),
                                pow10((e + 1 - scale) as nat) == 10 * pow10((e - scale) as nat),
                        ;
                    }
                    return None;
                },
            }
            e = e + 1;
        }
        Some(Amount { units })
    }
}

/// Unfolds one step of `pow10`.
proof fn lemma_pow10_step(e: nat)
    ensures
        pow10(e + 1) == 10 * pow10(e),
        pow10(e) >= 1,
    decreases e,
{
    if e > 0 {
        lemma_pow10_step((e - 1) as nat);
    }
}

/// Where `m * 10^i` no longer fits, no later power brings it back.
proof fn lemma_scaled_grows(m: int, i: nat, j: nat)
    requires
        i < j,
    ensures
        !fits(m * pow10(i + 1)) ==> !fits(m * pow10(j)),
    decreases j - i,
{
    lemma_pow10_step(i);
    if i + 1 < j {
        lemma_scaled_grows(m, i + 1, j);
        lemma_pow10_step(i + 1);
        assert(!fits(m * pow10(i + 1)) ==> !fits(m * pow10(i + 2))) by (nonlinear_arith)
            requires
                pow10(i + 2) == 10 * pow10(i + 1),
        ;
    }
}

} // verus!

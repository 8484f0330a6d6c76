use vstd::prelude::*;

verus! {

/// Decimal places carried by every amount.
pub const SCALE: u32 = 8;

/// Units in one whole currency unit, `10^SCALE`.
pub const UNITS_PER_WHOLE: i128 = 100000000;

/// Largest magnitude, in units, that an amount may hold: `2^96 - 1`.
pub const MAX_UNITS: i128 = 79228162514264337593543950335;

/// Whether an integer count of units lies in the representable range.
pub open spec fn in_range(v: int) -> bool {
    -(MAX_UNITS as int) <= v <= MAX_UNITS as int
}

/// `10^n` as a mathematical integer.
pub open spec fn pow10(n: nat) -> int
    decreases n,
{
    if n == 0 {
        1
    } else {
        10 * pow10((n - 1) as nat)
    }
}

/// A signed fixed-precision decimal: an integer count of `10^-SCALE` units,
/// bounded in magnitude by `MAX_UNITS`. Its view is that count.
#[derive(Clone, Copy, Debug, PartialEq, Eq, Structural)]
pub struct Money {
    units: i128,
}

impl View for Money {
    type V = int;

    closed spec fn view(&self) -> int {
        self.units as int
    }
}

/// The amount of `v` units.
pub closed spec fn money_of(v: int) -> Money {
    Money { units: v as i128 }
}

/// `money_of` gives back an amount's units, and an amount is determined by them.
pub broadcast proof fn lemma_money_of(v: int)
    requires
        in_range(v),
    ensures
        (#[trigger] money_of(v))@ == v,
{
}

pub broadcast proof fn lemma_money_eq(m: Money)
    ensures
        #[trigger] money_of(m@) == m,
{
}

/// Largest scale a decimal's parts may carry.
pub const MAX_PARTS_SCALE: u32 = 28;

/// The value, in units, of the decimal `mantissa * 10^-scale`, when it is
/// exact at `SCALE` places and in range. Parts beyond a 96-bit mantissa or
/// a scale above `MAX_PARTS_SCALE` are refused.
pub open spec fn parts_value(mantissa: int, scale: nat) -> Option<int> {
    if scale <= SCALE {
        let v = mantissa * pow10((SCALE - scale) as nat);
        if in_range(v) {
            Some(v)
        } else {
            None
        }
    } else if scale <= MAX_PARTS_SCALE && in_range(mantissa) {
        let a = if mantissa < 0 {
            -mantissa
        } else {
            mantissa
        };
        let d = pow10((scale - SCALE) as nat);
        if a % d == 0 {
            Some(
                if mantissa < 0 {
                    -(a / d)
                } else {
                    a / d
                },
            )
        } else {
            None
        }
    } else {
        None
    }
}

/// `10^n` for the exponents decimal parts need.
fn pow10_small(n: u32) -> (r: u128)
    requires
        n <= 20,
    ensures
        r == pow10(n as nat),
        1 <= r <= 100000000000000000000,
{
    proof {
        reveal_with_fuel(pow10, 21);
    }
    match n {
        0 => 1,
        1 => 10,
        2 => 100,
        3 => 1000,
        4 => 10000,
        5 => 100000,
        6 => 1000000,
        7 => 10000000,
        8 => 100000000,
        9 => 1000000000,
        10 => 10000000000,
        11 => 100000000000,
        12 => 1000000000000,
        13 => 10000000000000,
        14 => 100000000000000,
        15 => 1000000000000000,
        16 => 10000000000000000,
        17 => 100000000000000000,
        18 => 1000000000000000000,
        19 => 10000000000000000000,
        _ => 100000000000000000000,
    }
}

impl Money {
    #[verifier::type_invariant]
    spec fn inv(&self) -> bool {
        in_range(self.units as int)
    }

    pub fn zero() -> (r: Money)
        ensures
            r@ == 0,
    {
        Money { units: 0 }
    }

    /// The amount of `units` ten-to-the-minus-`SCALE` units, if it is in range.
    pub fn from_units(units: i128) -> (r: Option<Money>)
        ensures
            r is Some <==> in_range(units as int),
            r matches Some(m) ==> m@ == units as int,
    {
        if -MAX_UNITS <= units && units <= MAX_UNITS {
            Some(Money { units })
        } else {
            None
        }
    }

    /// The decimal `mantissa * 10^-scale`, as a decimal library hands out
    /// its parts; `None` when it is not exact at `SCALE` places, out of
    /// range, or beyond a decimal's parts.
    pub fn from_parts(mantissa: i128, scale: u32) -> (r: Option<Money>)
        ensures
            match parts_value(mantissa as int, scale as nat) {
                Some(v) => r matches Some(m) && m@ == v,
                None => r is None,
            },
    {
        if scale <= SCALE {
            let f = pow10_small(SCALE - scale) as i128;
            match mantissa.checked_mul(f) {
                Some(v) => Money::from_units(v),
                None => None,
            }
        } else if scale <= MAX_PARTS_SCALE && -MAX_UNITS <= mantissa && mantissa <= MAX_UNITS {
            let d = pow10_small(scale - SCALE);
            let a: u128 = if mantissa < 0 {
                (-mantissa) as u128
            } else {
                mantissa as u128
            };
            if a % d != 0 {
                None
            } else {
                let q = a / d;
                assert(q <= a) by (nonlinear_arith)
                    requires
                        q == a / d,
                        d >= 1,
                ;
                let q = q as i128;
                Some(
                    Money {
                        units: if mantissa < 0 {
                            -q
                        } else {
                            q
                        },
                    },
                )
            }
        } else {
            None
        }
    }

    /// A whole number of currency units.
    pub fn whole(n: i64) -> (r: Money)
        ensures
            r@ == n as int * UNITS_PER_WHOLE as int,
    {
        assert(-9223372036854775808 * 100000000 <= n as int * 100000000 <= 9223372036854775807
            * 100000000) by (nonlinear_arith)
            requires
                -9223372036854775808 <= n <= 9223372036854775807,
        ;
        Money { units: n as i128 * UNITS_PER_WHOLE }
    }

    pub fn units(&self) -> (r: i128)
        ensures
            r as int == self@,
            in_range(self@),
    {
        proof {
            use_type_invariant(self);
        }
        self.units
    }

    pub fn is_negative(&self) -> (r: bool)
        ensures
            r == (self@ < 0),
    {
        self.units < 0
    }

    pub fn le(&self, other: &Money) -> (r: bool)
        ensures
            r == (self@ <= other@),
    {
        self.units <= other.units
    }

    pub fn checked_add(&self, other: &Money) -> (r: Option<Money>)
        ensures
            r is Some <==> in_range(self@ + other@),
            r matches Some(m) ==> m@ == self@ + other@,
    {
        proof {
            use_type_invariant(self);
            use_type_invariant(other);
        }
        Money::from_units(self.units + other.units)
    }

    pub fn checked_sub(&self, other: &Money) -> (r: Option<Money>)
        ensures
            r is Some <==> in_range(self@ - other@),
            r matches Some(m) ==> m@ == self@ - other@,
    {
        proof {
            use_type_invariant(self);
            use_type_invariant(other);
        }
        Money::from_units(self.units - other.units)
    }

    /// The magnitude of the amount.
    pub fn abs(&self) -> (r: Money)
        ensures
            r@ == if self@ < 0 { -self@ } else { self@ },
    {
        proof {
            use_type_invariant(self);
        }
        if self.units < 0 {
            Money { units: -self.units }
        } else {
            *self
        }
    }

    /// The amount times a count, if the product is in range.
    pub fn checked_mul_count(&self, n: u64) -> (r: Option<Money>)
        ensures
            r is Some <==> in_range(self@ * n),
            r matches Some(m) ==> m@ == self@ * n,
    {
        proof {
            use_type_invariant(self);
        }
        let p = (self.units).checked_mul(n as i128);
        match p {
            Some(v) => Money::from_units(v),
            None => {
                proof {
                    assert(!in_range(self@ * n)) by (nonlinear_arith)
                        requires
                            !(i128::MIN <= self@ * n <= i128::MAX),
                            MAX_UNITS < i128::MAX,
                    ;
                }
                None
            },
        }
    }
}

} // verus!

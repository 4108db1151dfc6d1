//! Non-negative lengths tagged with their unit.
use crate::decimal::{
    decimal_sum, decimal_text, exact_sum, less_value, pow10, same_value, sum_fits, Decimal,
};
use crate::measure_units::lemma_pow10_add;
use crate::measure_units::{converted, symbol_of, MeasureUnit};
use std::cmp::Ordering;
use vstd::prelude::*;

verus! {

/// A length: a non-negative quantity and the unit it is measured in.
#[derive(Debug, Clone, Copy)]
pub struct Length {
    quantity: Decimal,
    unit: MeasureUnit,
}

/// The length that `rhs` takes once written in `unit` (`None` where the
/// conversion exceeds the range of a decimal).
pub open spec fn in_unit(rhs: ((int, nat), MeasureUnit), unit: MeasureUnit) -> Option<(int, nat)> {
    if rhs.1 == unit {
        Some(rhs.0)
    } else {
        converted(rhs.1, unit, rhs.0)
    }
}

/// `lhs == rhs`: the right-hand length, written in the left-hand unit,
/// denotes the same quantity.
pub open spec fn length_eq(lhs: ((int, nat), MeasureUnit), rhs: ((int, nat), MeasureUnit)) -> bool {
    match in_unit(rhs, lhs.1) {
        Some(q) => same_value(lhs.0, q),
        None => false,
    }
}

/// How `lhs` compares with `rhs` written in the left-hand unit; `None` where
/// that conversion exceeds the range of a decimal.
pub open spec fn length_cmp(lhs: ((int, nat), MeasureUnit), rhs: ((int, nat), MeasureUnit)) -> Option<
    Ordering,
> {
    match in_unit(rhs, lhs.1) {
        Some(q) => if less_value(lhs.0, q) {
            Some(Ordering::Less)
        } else if same_value(lhs.0, q) {
            Some(Ordering::Equal)
        } else {
            Some(Ordering::Greater)
        },
        None => None,
    }
}

/// `lhs + rhs`: the right-hand length is written in the left-hand unit and
/// added; the result keeps the left-hand unit. `None` where the arithmetic
/// exceeds the range of a decimal.
pub open spec fn length_sum(lhs: ((int, nat), MeasureUnit), rhs: ((int, nat), MeasureUnit)) -> Option<
    ((int, nat), MeasureUnit),
> {
    match in_unit(rhs, lhs.1) {
        Some(q) => match decimal_sum(lhs.0, q) {
            Some(s) => if s.0 >= 0 {
                Some((s, lhs.1))
            } else {
                None
            },
            None => None,
        },
        None => None,
    }
}

/// The exact sum of `lhs` and `rhs` written in the left-hand unit, where
/// that conversion gives a non-negative quantity and the sum fits without
/// rounding.
pub open spec fn exact_sum_of(lhs: ((int, nat), MeasureUnit), rhs: ((int, nat), MeasureUnit)) -> Option<
    (int, nat),
> {
    match in_unit(rhs, lhs.1) {
        Some(q) => if q.0 >= 0 && sum_fits(lhs.0, q) {
            Some(exact_sum(lhs.0, q))
        } else {
            None
        },
        None => None,
    }
}

/// A decimal with the value of a non-negative one is not negative.
proof fn lemma_same_value_sign(s: (int, nat), e: (int, nat))
    requires
        same_value(s, e),
        e.0 >= 0,
        pow10(s.1) > 0,
        pow10(e.1) > 0,
    ensures
        s.0 >= 0,
{
    assert(s.0 >= 0) by (nonlinear_arith)
        requires
            s.0 * pow10(e.1) == e.0 * pow10(s.1),
            e.0 >= 0,
            pow10(s.1) > 0,
            pow10(e.1) > 0,
    ;
}

/// The text of a length: its quantity, a space and the unit symbol.
pub open spec fn length_text(l: ((int, nat), MeasureUnit)) -> Seq<char> {
    decimal_text(l.0) + seq![' '] + symbol_of(l.1)
}

impl View for Length {
    type V = ((int, nat), MeasureUnit);

    closed spec fn view(&self) -> ((int, nat), MeasureUnit) {
        (self.quantity@, self.unit)
    }
}

impl Length {
    #[verifier::type_invariant]
    spec fn non_negative(self) -> bool {
        self.quantity@.0 >= 0
    }

    /// A length of `value` in `measure_unit`; `None` if `value` is negative.
    pub fn new(value: Decimal, measure_unit: MeasureUnit) -> (r: Option<Length>)
        ensures
            r is None <==> value@.0 < 0,
            r matches Some(l) ==> l@ == (value@, measure_unit),
    {
        if value.is_sign_negative() {
            None
        } else {
            Some(Length { quantity: value, unit: measure_unit })
        }
    }

    /// The quantity, never negative.
    pub fn quantity(&self) -> (r: Decimal)
        ensures
            r@ == self@.0,
            r@.0 >= 0,
    {
        proof {
            use_type_invariant(self);
        }
        self.quantity
    }

    pub fn measure_unit(&self) -> (r: MeasureUnit)
        ensures
            r == self@.1,
    {
        self.unit
    }

    /// Zero millimeters.
    pub fn zero() -> (r: Length)
        ensures
            r@ == ((0int, 0nat), MeasureUnit::Millimeters),
    {
        Length { quantity: Decimal::zero(), unit: MeasureUnit::Millimeters }
    }

    /// `rhs` written in this length's unit.
    fn rhs_in_unit(&self, rhs: &Length) -> (r: Option<Decimal>)
        ensures
            match r {
                Some(q) => in_unit(rhs@, self@.1) == Some(q@),
                None => in_unit(rhs@, self@.1) is None,
            },
    {
        if rhs.unit == self.unit {
            Some(rhs.quantity)
        } else {
            rhs.unit.to(self.unit).convert(rhs.quantity)
        }
    }

    /// The sum of two lengths, in the unit of `self`: `rhs` is converted
    /// into that unit first. `None` where the arithmetic exceeds the range
    /// of a decimal.
    pub fn add(&self, rhs: &Length) -> (r: Option<Length>)
        ensures
            match r {
                Some(l) => length_sum(self@, rhs@) == Some(l@),
                None => length_sum(self@, rhs@) is None,
            },
            exact_sum_of(self@, rhs@) is Some ==> r is Some && r.unwrap()@.1 == self@.1
                && same_value(r.unwrap()@.0, exact_sum_of(self@, rhs@).unwrap()),
    {
        proof {
            use_type_invariant(self);
        }
        match self.rhs_in_unit(rhs) {
            Some(q) => match self.quantity.checked_add(&q) {
                Some(s) => {
                    proof {
                        if exact_sum_of(self@, rhs@) is Some {
                            let e = exact_sum(self@.0, q@);
                            lemma_pow10_add((e.1 - self@.0.1) as nat, 0);
                            lemma_pow10_add((e.1 - q@.1) as nat, 0);
                            lemma_pow10_add(s@.1, 0);
                            lemma_pow10_add(e.1, 0);
                            let x = self@.0.0;
                            let y = q@.0;
                            let px = pow10((e.1 - self@.0.1) as nat);
                            let py = pow10((e.1 - q@.1) as nat);
                            assert(x * px + y * py >= 0) by (nonlinear_arith)
                                requires
                                    x >= 0,
                                    y >= 0,
                                    px > 0,
                                    py > 0,
                            ;
                            lemma_same_value_sign(s@, e);
                        }
                    }
                    Length::new(s, self.unit)
                },
                None => None,
            },
            None => None,
        }
    }

    /// Renders as `"<quantity> <unit symbol>"`, e.g. "42 mm".
    pub fn to_string(&self) -> (r: String)
        ensures
            r@ == length_text(self@),
    {
        let text = self.quantity.to_string();
        proof {
            reveal_strlit(" ");
        }
        let text = text.concat(" ");
        text.concat(self.unit.symbol())
    }
}

impl Default for Length {
    fn default() -> (r: Length)
        ensures
            r@ == ((0int, 0nat), MeasureUnit::Millimeters),
    {
        Length::zero()
    }
}

impl PartialEq for Length {
    /// Compares after converting `other` into the unit of `self`.
    fn eq(&self, other: &Length) -> (r: bool) {
        match self.rhs_in_unit(other) {
            Some(q) => self.quantity == q,
            None => false,
        }
    }
}

impl vstd::std_specs::cmp::PartialEqSpecImpl for Length {
    open spec fn obeys_eq_spec() -> bool {
        true
    }

    open spec fn eq_spec(&self, other: &Length) -> bool {
        length_eq(self@, other@)
    }
}

impl PartialOrd for Length {
    /// Compares after converting `other` into the unit of `self`.
    fn partial_cmp(&self, other: &Length) -> (r: Option<Ordering>) {
        match self.rhs_in_unit(other) {
            Some(q) => Some(self.quantity.compare(&q)),
            None => None,
        }
    }
}

impl vstd::std_specs::cmp::PartialOrdSpecImpl for Length {
    open spec fn obeys_partial_cmp_spec() -> bool {
        true
    }

    open spec fn partial_cmp_spec(&self, other: &Length) -> Option<Ordering> {
        length_cmp(self@, other@)
    }
}

} // verus!

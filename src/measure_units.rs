//! Units of linear length and the conversion table between them.
use crate::decimal::{
    decimal_product, exact_product, parts_in_range, pow10, product_fits, view_of, Decimal,
};
use vstd::prelude::*;

verus! {

/// A unit of length.
#[derive(Debug, Clone, Copy, PartialEq, Eq, Structural)]
pub enum MeasureUnit {
    Millimeters,
    Inches,
    Miles,
    Kilometers,
}

/// The short symbol of a unit.
pub open spec fn symbol_of(unit: MeasureUnit) -> Seq<char> {
    match unit {
        MeasureUnit::Millimeters => seq!['m', 'm'],
        MeasureUnit::Inches => seq!['i', 'n'],
        MeasureUnit::Miles => seq!['m', 'i'],
        MeasureUnit::Kilometers => seq!['k', 'm'],
    }
}

/// The factor, as (mantissa, scale), that turns a quantity in `from` into
/// the same length in `to`.
pub open spec fn factor(from: MeasureUnit, to: MeasureUnit) -> (int, nat) {
    match (from, to) {
        (MeasureUnit::Millimeters, MeasureUnit::Inches) => (393701, 7),
        (MeasureUnit::Millimeters, MeasureUnit::Miles) => (621371, 12),
        (MeasureUnit::Millimeters, MeasureUnit::Kilometers) => (1, 6),
        (MeasureUnit::Inches, MeasureUnit::Millimeters) => (254, 1),
        (MeasureUnit::Inches, MeasureUnit::Miles) => (157828, 10),
        (MeasureUnit::Inches, MeasureUnit::Kilometers) => (254, 7),
        (MeasureUnit::Miles, MeasureUnit::Millimeters) => (1609340, 0),
        (MeasureUnit::Miles, MeasureUnit::Inches) => (63360, 0),
        (MeasureUnit::Miles, MeasureUnit::Kilometers) => (160934, 5),
        (MeasureUnit::Kilometers, MeasureUnit::Millimeters) => (1000000, 0),
        (MeasureUnit::Kilometers, MeasureUnit::Inches) => (393701, 1),
        (MeasureUnit::Kilometers, MeasureUnit::Miles) => (621371, 6),
        _ => (1, 0),
    }
}

/// What converting `value` from `from` into `to` returns (`None` where the
/// result exceeds the range of a decimal).
pub open spec fn converted(from: MeasureUnit, to: MeasureUnit, value: (int, nat)) -> Option<(int, nat)> {
    decimal_product(value, factor(from, to))
}

impl MeasureUnit {
    /// The short symbol of this unit ("mm", "in", "mi", "km").
    pub fn symbol(&self) -> (r: &'static str)
        ensures
            r@ == symbol_of(*self),
    {
        match self {
            MeasureUnit::Millimeters => {
                proof {
                    reveal_strlit("mm");
                }
                "mm"
            },
            MeasureUnit::Inches => {
                proof {
                    reveal_strlit("in");
                }
                "in"
            },
            MeasureUnit::Miles => {
                proof {
                    reveal_strlit("mi");
                }
                "mi"
            },
            MeasureUnit::Kilometers => {
                proof {
                    reveal_strlit("km");
                }
                "km"
            },
        }
    }

    /// The converter from this unit into `other`.
    pub fn to(&self, other: MeasureUnit) -> (r: MeasureUnitConverter)
        ensures
            r.from == *self,
            r.to == other,
    {
        MeasureUnitConverter { from: *self, to: other }
    }
}

/// Converts quantities from one unit into another.
#[derive(Debug, Clone, Copy, PartialEq, Eq, Structural)]
pub struct MeasureUnitConverter {
    pub from: MeasureUnit,
    pub to: MeasureUnit,
}

fn conversion_factor(from: MeasureUnit, to: MeasureUnit) -> (r: Decimal)
    ensures
        r@ == factor(from, to),
{
    match (from, to) {
        (MeasureUnit::Millimeters, MeasureUnit::Inches) => Decimal::new(393701, 7),
        (MeasureUnit::Millimeters, MeasureUnit::Miles) => Decimal::new(621371, 12),
        (MeasureUnit::Millimeters, MeasureUnit::Kilometers) => Decimal::new(1, 6),
        (MeasureUnit::Inches, MeasureUnit::Millimeters) => Decimal::new(254, 1),
        (MeasureUnit::Inches, MeasureUnit::Miles) => Decimal::new(157828, 10),
        (MeasureUnit::Inches, MeasureUnit::Kilometers) => Decimal::new(254, 7),
        (MeasureUnit::Miles, MeasureUnit::Millimeters) => Decimal::new(1609340, 0),
        (MeasureUnit::Miles, MeasureUnit::Inches) => Decimal::new(63360, 0),
        (MeasureUnit::Miles, MeasureUnit::Kilometers) => Decimal::new(160934, 5),
        (MeasureUnit::Kilometers, MeasureUnit::Millimeters) => Decimal::new(1000000, 0),
        (MeasureUnit::Kilometers, MeasureUnit::Inches) => Decimal::new(393701, 1),
        (MeasureUnit::Kilometers, MeasureUnit::Miles) => Decimal::new(621371, 6),
        _ => Decimal::new(1, 0),
    }
}

impl MeasureUnitConverter {
    /// The factor that this converter applies.
    pub fn factor(&self) -> (r: Decimal)
        ensures
            r@ == factor(self.from, self.to),
    {
        conversion_factor(self.from, self.to)
    }

    /// Multiplies `value` by the conversion factor. The result is exact
    /// whenever the exact product fits in a decimal; `None` where it exceeds
    /// the range of a decimal.
    pub fn convert(&self, value: Decimal) -> (r: Option<Decimal>)
        ensures
            view_of(r) == converted(self.from, self.to, value@),
            product_fits(value@, factor(self.from, self.to)) ==> view_of(r) == Some(
                exact_product(value@, factor(self.from, self.to)),
            ),
    {
        let f = conversion_factor(self.from, self.to);
        value.checked_mul(&f)
    }
}

/// `10^(a + b) == 10^a * 10^b`.
pub proof fn lemma_pow10_add(a: nat, b: nat)
    ensures
        pow10(a + b) == pow10(a) * pow10(b),
        pow10(a) > 0,
    decreases a,
{
    if a > 0 {
        lemma_pow10_add((a - 1) as nat, b);
        assert(pow10(a + b) == 10 * pow10((a - 1 + b) as nat));
        assert(pow10(a + b) == pow10(a) * pow10(b)) by (nonlinear_arith)
            requires
                pow10(a + b) == 10 * pow10((a - 1 + b) as nat),
                pow10((a - 1 + b) as nat) == pow10((a - 1) as nat) * pow10(b),
                pow10(a) == 10 * pow10((a - 1) as nat),
        ;
    }
}

/// The factors of a unit pair and of the reverse pair multiply to one, up
/// to a relative error of 1/100000: `|f * g - 1| <= 1/100000`.
pub proof fn lemma_factors_reciprocal(a: MeasureUnit, b: MeasureUnit)
    ensures
        ({
            let f = factor(a, b);
            let g = factor(b, a);
            let d = f.0 * g.0 - pow10(f.1 + g.1);
            &&& f.0 > 0
            &&& g.0 > 0
            &&& -pow10(f.1 + g.1) <= d * 100000 <= pow10(f.1 + g.1)
        }),
{
    reveal_with_fuel(pow10, 13);
}

/// Converting a quantity from one unit into another and back gives the
/// quantity again, up to a relative error of 1/100000, whenever both
/// conversions are exact (the products fit in a decimal).
pub proof fn lemma_round_trip(x: (int, nat), a: MeasureUnit, b: MeasureUnit)
    requires
        parts_in_range(x),
        product_fits(x, factor(a, b)),
        product_fits(exact_product(x, factor(a, b)), factor(b, a)),
    ensures
        ({
            let y = exact_product(x, factor(a, b));
            let z = exact_product(y, factor(b, a));
            let err = z.0 * pow10(x.1) - x.0 * pow10(z.1);
            let bound = if x.0 >= 0 {
                x.0 * pow10(z.1)
            } else {
                -x.0 * pow10(z.1)
            };
            -bound <= err * 100000 <= bound
        }),
{
    lemma_factors_reciprocal(a, b);
    let f = factor(a, b);
    let g = factor(b, a);
    if x.0 != 0 {
        let s = f.1 + g.1;
        let y = exact_product(x, f);
        let z = exact_product(y, g);
        assert(y == (x.0 * f.0, x.1 + f.1));
        assert(x.0 * f.0 != 0) by (nonlinear_arith)
            requires
                x.0 != 0,
                f.0 > 0,
        ;
        assert(z == (x.0 * f.0 * g.0, x.1 + f.1 + g.1));
        lemma_pow10_add(x.1, s);
        lemma_pow10_add(s, 0);
        assert(x.1 + f.1 + g.1 == x.1 + s);
        let p = pow10(x.1);
        let q = pow10(s);
        let d = f.0 * g.0 - q;
        assert(z.0 * pow10(x.1) - x.0 * pow10(z.1) == x.0 * p * d) by (nonlinear_arith)
            requires
                z.0 == x.0 * f.0 * g.0,
                pow10(z.1) == p * q,
                pow10(x.1) == p,
                d == f.0 * g.0 - q,
        ;
        if x.0 >= 0 {
            assert(-(x.0 * pow10(z.1)) <= (x.0 * p * d) * 100000 <= x.0 * pow10(z.1)) by (nonlinear_arith)
                requires
                    pow10(z.1) == p * q,
                    x.0 >= 0,
                    p > 0,
                    -q <= d * 100000 <= q,
            ;
        } else {
            assert(-(-x.0 * pow10(z.1)) <= (x.0 * p * d) * 100000 <= -x.0 * pow10(z.1)) by (nonlinear_arith)
                requires
                    pow10(z.1) == p * q,
                    x.0 < 0,
                    p > 0,
                    -q <= d * 100000 <= q,
            ;
        }
    }
}

} // verus!

//! Exact decimal numbers, held as a mantissa and a scale.
//!
//! The arithmetic itself is carried out by `rust_decimal`; this type keeps
//! the two integers that the rest of the library reasons about.
use std::cmp::Ordering;
use vstd::prelude::*;

verus! {

/// Largest magnitude of a mantissa: 96 bits.
pub const MAX_MANTISSA: i128 = 79228162514264337593543950335;

/// Largest number of digits after the decimal point.
pub const MAX_SCALE: u32 = 28;

/// Ten to the power `n`.
pub open spec fn pow10(n: nat) -> int
    decreases n,
{
    if n == 0 {
        1
    } else {
        10 * pow10((n - 1) as nat)
    }
}

/// A pair (mantissa, scale) that a decimal can hold.
pub open spec fn parts_in_range(p: (int, nat)) -> bool {
    p.1 <= MAX_SCALE && -MAX_MANTISSA <= p.0 <= MAX_MANTISSA
}

/// `a` and `b` denote the same number (`a.0 / 10^a.1 == b.0 / 10^b.1`).
pub open spec fn same_value(a: (int, nat), b: (int, nat)) -> bool {
    a.0 * pow10(b.1) == b.0 * pow10(a.1)
}

/// The number denoted by `a` is smaller than the one denoted by `b`.
pub open spec fn less_value(a: (int, nat), b: (int, nat)) -> bool {
    a.0 * pow10(b.1) < b.0 * pow10(a.1)
}

/// The exact product of two decimals, written as (mantissa, scale).
pub open spec fn exact_product(a: (int, nat), b: (int, nat)) -> (int, nat) {
    if a.0 == 0 || b.0 == 0 {
        (0, 0)
    } else {
        (a.0 * b.0, a.1 + b.1)
    }
}

/// The exact product can be held without rounding.
pub open spec fn product_fits(a: (int, nat), b: (int, nat)) -> bool {
    parts_in_range(exact_product(a, b))
}

/// The larger of two scales.
pub open spec fn common_scale(a: (int, nat), b: (int, nat)) -> nat {
    if a.1 >= b.1 {
        a.1
    } else {
        b.1
    }
}

/// The exact sum of two decimals, written at the larger of their scales.
pub open spec fn exact_sum(a: (int, nat), b: (int, nat)) -> (int, nat) {
    let s = common_scale(a, b);
    (a.0 * pow10((s - a.1) as nat) + b.0 * pow10((s - b.1) as nat), s)
}

/// Both operands, written at the larger scale, and their exact sum fit in 96
/// bits.
pub open spec fn sum_fits(a: (int, nat), b: (int, nat)) -> bool {
    let s = common_scale(a, b);
    &&& parts_in_range((a.0 * pow10((s - a.1) as nat), s))
    &&& parts_in_range((b.0 * pow10((s - b.1) as nat), s))
    &&& parts_in_range(exact_sum(a, b))
}

/// The (mantissa, scale) pair held in an optional result.
pub open spec fn parts_of(r: Option<(i128, u32)>) -> Option<(int, nat)> {
    match r {
        Some(p) => Some((p.0 as int, p.1 as nat)),
        None => None,
    }
}

/// What `rust_decimal` returns for `a * b` (`None` on overflow).
pub uninterp spec fn decimal_product(a: (int, nat), b: (int, nat)) -> Option<(int, nat)>;

/// What `rust_decimal` returns for `a + b` (`None` on overflow).
pub uninterp spec fn decimal_sum(a: (int, nat), b: (int, nat)) -> Option<(int, nat)>;

/// The text that `rust_decimal` renders for a decimal.
pub uninterp spec fn decimal_text(a: (int, nat)) -> Seq<char>;

/// Relies on `rust_decimal::Decimal::checked_mul`: the product is computed
/// exactly (mantissas multiplied, scales added, zero collapsed to `0`) when it
/// fits in 96 bits and 28 digits; scales and mantissas stay in range.
#[verifier::external_body]
fn multiply_parts(am: i128, ascale: u32, bm: i128, bscale: u32) -> (r: Option<(i128, u32)>)
    requires
        parts_in_range((am as int, ascale as nat)),
        parts_in_range((bm as int, bscale as nat)),
    ensures
        parts_of(r) == decimal_product((am as int, ascale as nat), (bm as int, bscale as nat)),
        r matches Some(p) ==> parts_in_range((p.0 as int, p.1 as nat)),
        parts_of(r) == Some(exact_product((am as int, ascale as nat), (bm as int, bscale as nat)))
            <== product_fits((am as int, ascale as nat), (bm as int, bscale as nat)),
{
    let a = rust_decimal::Decimal::from_i128_with_scale(am, ascale);
    let b = rust_decimal::Decimal::from_i128_with_scale(bm, bscale);
    match a.checked_mul(b) {
        Some(p) => Some((p.mantissa(), p.scale())),
        None => None,
    }
}

/// Relies on `rust_decimal::Decimal::checked_add`: scales and mantissas of
/// the result stay in range, and the sum is exact (the same number as the
/// exact sum) when both operands, written at the larger scale, and their sum
/// fit in 96 bits.
#[verifier::external_body]
fn add_parts(am: i128, ascale: u32, bm: i128, bscale: u32) -> (r: Option<(i128, u32)>)
    requires
        parts_in_range((am as int, ascale as nat)),
        parts_in_range((bm as int, bscale as nat)),
    ensures
        parts_of(r) == decimal_sum((am as int, ascale as nat), (bm as int, bscale as nat)),
        r matches Some(p) ==> parts_in_range((p.0 as int, p.1 as nat)),
        sum_fits((am as int, ascale as nat), (bm as int, bscale as nat)) ==> r is Some && same_value(
            (r.unwrap().0 as int, r.unwrap().1 as nat),
            exact_sum((am as int, ascale as nat), (bm as int, bscale as nat)),
        ),
{
    let a = rust_decimal::Decimal::from_i128_with_scale(am, ascale);
    let b = rust_decimal::Decimal::from_i128_with_scale(bm, bscale);
    match a.checked_add(b) {
        Some(p) => Some((p.mantissa(), p.scale())),
        None => None,
    }
}

/// Relies on `Ord for rust_decimal::Decimal`: decimals are ordered by the
/// number they denote, whatever their scales.
#[verifier::external_body]
fn compare_parts(am: i128, ascale: u32, bm: i128, bscale: u32) -> (r: Ordering)
    requires
        parts_in_range((am as int, ascale as nat)),
        parts_in_range((bm as int, bscale as nat)),
    ensures
        (r == Ordering::Less) == less_value((am as int, ascale as nat), (bm as int, bscale as nat)),
        (r == Ordering::Equal) == same_value((am as int, ascale as nat), (bm as int, bscale as nat)),
        (r == Ordering::Greater) == less_value(
            (bm as int, bscale as nat),
            (am as int, ascale as nat),
        ),
{
    let a = rust_decimal::Decimal::from_i128_with_scale(am, ascale);
    let b = rust_decimal::Decimal::from_i128_with_scale(bm, bscale);
    a.cmp(&b)
}

/// Relies on `Display for rust_decimal::Decimal`: the rendered text of a
/// decimal depends on its mantissa and scale alone.
#[verifier::external_body]
fn render_parts(m: i128, scale: u32) -> (r: String)
    requires
        parts_in_range((m as int, scale as nat)),
    ensures
        r@ == decimal_text((m as int, scale as nat)),
{
    rust_decimal::Decimal::from_i128_with_scale(m, scale).to_string()
}

/// The (mantissa, scale) pair of an optional decimal.
pub open spec fn view_of(r: Option<Decimal>) -> Option<(int, nat)> {
    match r {
        Some(d) => Some(d@),
        None => None,
    }
}

/// A decimal number `mantissa / 10^scale`, with a 96-bit mantissa and at
/// most 28 fractional digits.
#[derive(Clone, Copy, Debug)]
pub struct Decimal {
    mantissa: i128,
    scale: u32,
}

impl View for Decimal {
    type V = (int, nat);

    closed spec fn view(&self) -> (int, nat) {
        (self.mantissa as int, self.scale as nat)
    }
}

impl Decimal {
    #[verifier::type_invariant]
    spec fn in_range(self) -> bool {
        parts_in_range((self.mantissa as int, self.scale as nat))
    }

    /// The decimal `num / 10^scale`.
    pub fn new(num: i64, scale: u32) -> (r: Decimal)
        requires
            scale <= MAX_SCALE,
        ensures
            r@ == (num as int, scale as nat),
    {
        Decimal { mantissa: num as i128, scale }
    }

    /// The integer `num`, with no fractional digits.
    pub fn from(num: i64) -> (r: Decimal)
        ensures
            r@ == (num as int, 0nat),
    {
        Decimal { mantissa: num as i128, scale: 0 }
    }

    /// The decimal `num / 10^scale`, from a mantissa of up to 96 bits.
    pub fn from_i128_with_scale(num: i128, scale: u32) -> (r: Decimal)
        requires
            parts_in_range((num as int, scale as nat)),
        ensures
            r@ == (num as int, scale as nat),
    {
        Decimal { mantissa: num, scale }
    }

    /// Zero, with no fractional digits.
    pub fn zero() -> (r: Decimal)
        ensures
            r@ == (0int, 0nat),
    {
        Decimal { mantissa: 0, scale: 0 }
    }

    pub fn mantissa(&self) -> (r: i128)
        ensures
            r as int == self@.0,
            parts_in_range(self@),
    {
        proof {
            use_type_invariant(self);
        }
        self.mantissa
    }

    pub fn scale(&self) -> (r: u32)
        ensures
            r as nat == self@.1,
            parts_in_range(self@),
    {
        proof {
            use_type_invariant(self);
        }
        self.scale
    }

    /// The number is below zero.
    pub fn is_sign_negative(&self) -> (r: bool)
        ensures
            r == (self@.0 < 0),
    {
        self.mantissa < 0
    }

    /// The number is zero or above.
    pub fn is_sign_positive(&self) -> (r: bool)
        ensures
            r == (self@.0 >= 0),
    {
        self.mantissa >= 0
    }

    pub fn is_zero(&self) -> (r: bool)
        ensures
            r == (self@.0 == 0),
    {
        self.mantissa == 0
    }

    /// The product, or `None` where it exceeds the range of a decimal.
    /// It is exact whenever the exact product can be held.
    pub fn checked_mul(&self, other: &Decimal) -> (r: Option<Decimal>)
        ensures
            view_of(r) == decimal_product(self@, other@),
            product_fits(self@, other@) ==> view_of(r) == Some(exact_product(self@, other@)),
    {
        proof {
            use_type_invariant(self);
            use_type_invariant(other);
        }
        match multiply_parts(self.mantissa, self.scale, other.mantissa, other.scale) {
            Some(p) => Some(Decimal { mantissa: p.0, scale: p.1 }),
            None => None,
        }
    }

    /// The sum, or `None` where it exceeds the range of a decimal. It is
    /// exact whenever the operands at the larger scale and their sum fit.
    pub fn checked_add(&self, other: &Decimal) -> (r: Option<Decimal>)
        ensures
            view_of(r) == decimal_sum(self@, other@),
            sum_fits(self@, other@) ==> r is Some && same_value(r.unwrap()@, exact_sum(self@, other@)),
    {
        proof {
            use_type_invariant(self);
            use_type_invariant(other);
        }
        match add_parts(self.mantissa, self.scale, other.mantissa, other.scale) {
            Some(p) => Some(Decimal { mantissa: p.0, scale: p.1 }),
            None => None,
        }
    }

    /// Compares the numbers denoted, whatever their scales.
    pub fn compare(&self, other: &Decimal) -> (r: Ordering)
        ensures
            (r == Ordering::Less) == less_value(self@, other@),
            (r == Ordering::Equal) == same_value(self@, other@),
            (r == Ordering::Greater) == less_value(other@, self@),
    {
        proof {
            use_type_invariant(self);
            use_type_invariant(other);
        }
        compare_parts(self.mantissa, self.scale, other.mantissa, other.scale)
    }

    /// The decimal written out in base ten.
    pub fn to_string(&self) -> (r: String)
        ensures
            r@ == decimal_text(self@),
    {
        proof {
            use_type_invariant(self);
        }
        render_parts(self.mantissa, self.scale)
    }
}

impl PartialEq for Decimal {
    /// Two decimals are equal when they denote the same number (`42` equals `42.0`).
    fn eq(&self, other: &Decimal) -> (r: bool) {
        match self.compare(other) {
            Ordering::Equal => true,
            _ => false,
        }
    }
}

impl vstd::std_specs::cmp::PartialEqSpecImpl for Decimal {
    open spec fn obeys_eq_spec() -> bool {
        true
    }

    open spec fn eq_spec(&self, other: &Decimal) -> bool {
        same_value(self@, other@)
    }
}

impl PartialOrd for Decimal {
    fn partial_cmp(&self, other: &Decimal) -> (r: Option<Ordering>) {
        Some(self.compare(other))
    }
}

impl vstd::std_specs::cmp::PartialOrdSpecImpl for Decimal {
    open spec fn obeys_partial_cmp_spec() -> bool {
        true
    }

    open spec fn partial_cmp_spec(&self, other: &Decimal) -> Option<Ordering> {
        if less_value(self@, other@) {
            Some(Ordering::Less)
        } else if same_value(self@, other@) {
            Some(Ordering::Equal)
        } else {
            Some(Ordering::Greater)
        }
    }
}

} // verus!

use crate::decimal::{decimal_text, less_value, same_value, Decimal};
use std::cmp::Ordering;
use vstd::prelude::*;

verus! {

/// The ratio `1:N` between a model and the real train, held by its
/// denominator `N`, which is above zero.
///
/// Ratios are ordered by the size of the model: a larger denominator makes
/// a smaller model, so `1:160 < 1:87`.
#[derive(Debug, Clone, Copy)]
pub struct Ratio(Decimal);

/// The text of a ratio: "1:" and the denominator.
pub open spec fn ratio_text(denominator: (int, nat)) -> Seq<char> {
    seq!['1', ':'] + decimal_text(denominator)
}

/// How the ratio with denominator `a` compares with the one with
/// denominator `b`: the reverse of how the denominators compare.
pub open spec fn ratio_cmp(a: (int, nat), b: (int, nat)) -> Ordering {
    if less_value(b, a) {
        Ordering::Less
    } else if same_value(b, a) {
        Ordering::Equal
    } else {
        Ordering::Greater
    }
}

impl View for Ratio {
    type V = (int, nat);

    closed spec fn view(&self) -> (int, nat) {
        self.0@
    }
}

impl Ratio {
    #[verifier::type_invariant]
    spec fn positive(self) -> bool {
        self.0@.0 > 0
    }

    /// The ratio `1:value`; fails unless `value` is above zero.
    pub fn try_from(value: Decimal) -> (r: Result<Ratio, ()>)
        ensures
            r is Ok <==> value@.0 > 0,
            r matches Ok(ratio) ==> ratio@ == value@,
    {
        if value.is_sign_positive() && !value.is_zero() {
            Ok(Ratio(value))
        } else {
            Err(())
        }
    }

    /// The denominator `N` of `1:N`, above zero.
    pub fn denominator(&self) -> (r: Decimal)
        ensures
            r@ == self@,
            r@.0 > 0,
    {
        proof {
            use_type_invariant(self);
        }
        self.0
    }

    /// Renders as "1:N", e.g. "1:87".
    pub fn to_string(&self) -> (r: String)
        ensures
            r@ == ratio_text(self@),
    {
        let mut text = String::from_str("1:");
        let den = self.0.to_string();
        proof {
            reveal_strlit("1:");
        }
        text.append(den.as_str());
        text
    }
}

impl PartialEq for Ratio {
    /// Equal denominators, whatever their scales.
    fn eq(&self, other: &Ratio) -> (r: bool) {
        self.0 == other.0
    }
}

impl vstd::std_specs::cmp::PartialEqSpecImpl for Ratio {
    open spec fn obeys_eq_spec() -> bool {
        true
    }

    open spec fn eq_spec(&self, other: &Ratio) -> bool {
        same_value(self@, other@)
    }
}

impl PartialOrd for Ratio {
    /// Compares the denominators in reverse order.
    fn partial_cmp(&self, other: &Ratio) -> (r: Option<Ordering>) {
        Some(other.0.compare(&self.0))
    }
}

impl vstd::std_specs::cmp::PartialOrdSpecImpl for Ratio {
    open spec fn obeys_partial_cmp_spec() -> bool {
        true
    }

    open spec fn partial_cmp_spec(&self, other: &Ratio) -> Option<Ordering> {
        Some(ratio_cmp(self@, other@))
    }
}

/// Ratios are ordered the reverse way of their denominators: `a > b`
/// exactly when the denominator of `a` is the smaller one.
pub proof fn lemma_ratio_order_inverted(a: Ratio, b: Ratio)
    ensures
        (ratio_cmp(a@, b@) == Ordering::Greater) == less_value(a@, b@),
        (ratio_cmp(a@, b@) == Ordering::Less) == less_value(b@, a@),
        (ratio_cmp(b@, a@) == Ordering::Less) == less_value(a@, b@),
{
}

} // verus!

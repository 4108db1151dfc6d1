use crate::decimal::{decimal_text, same_value, Decimal};
use crate::measure_units::{converted, MeasureUnit};
use vstd::prelude::*;
use vstd::string::*;

verus! {

/// The overall length of tracks (in km and miles) operated by a railway company
#[derive(Debug, Clone, Copy)]
pub struct RailwayLength {
    kilometers: Decimal,
    miles: Decimal,
}

impl RailwayLength {
    pub closed spec fn spec_kilometers(self) -> (int, nat) {
        self.kilometers@
    }

    pub closed spec fn spec_miles(self) -> (int, nat) {
        self.miles@
    }

    pub fn new(kilometers: Decimal, miles: Decimal) -> (r: RailwayLength)
        ensures
            r.spec_kilometers() == kilometers@,
            r.spec_miles() == miles@,
    {
        RailwayLength { kilometers, miles }
    }

    /// Creates a new railway length from the kilometers value; the miles are
    /// converted from it. `None` where the conversion exceeds the range of a
    /// decimal.
    pub fn of_kilometers(kilometers: Decimal) -> (r: Option<RailwayLength>)
        ensures
            r is None <==> converted(MeasureUnit::Kilometers, MeasureUnit::Miles, kilometers@) is None,
            r matches Some(l) ==> l.spec_kilometers() == kilometers@ && converted(
                MeasureUnit::Kilometers,
                MeasureUnit::Miles,
                kilometers@,
            ) == Some(l.spec_miles()),
    {
        match MeasureUnit::Kilometers.to(MeasureUnit::Miles).convert(kilometers) {
            Some(miles) => Some(RailwayLength { kilometers, miles }),
            None => None,
        }
    }

    /// Creates a new railway length from the miles value; the kilometers are
    /// converted from it. `None` where the conversion exceeds the range of a
    /// decimal.
    pub fn of_miles(miles: Decimal) -> (r: Option<RailwayLength>)
        ensures
            r is None <==> converted(MeasureUnit::Miles, MeasureUnit::Kilometers, miles@) is None,
            r matches Some(l) ==> l.spec_miles() == miles@ && converted(
                MeasureUnit::Miles,
                MeasureUnit::Kilometers,
                miles@,
            ) == Some(l.spec_kilometers()),
    {
        match MeasureUnit::Miles.to(MeasureUnit::Kilometers).convert(miles) {
            Some(kilometers) => Some(RailwayLength { kilometers, miles }),
            None => None,
        }
    }

    /// Returns the length of track in Kilometers
    pub fn kilometers(&self) -> (r: Decimal)
        ensures
            r@ == self.spec_kilometers(),
    {
        self.kilometers
    }

    /// Returns the length of track in Miles
    pub fn miles(&self) -> (r: Decimal)
        ensures
            r@ == self.spec_miles(),
    {
        self.miles
    }

    /// Renders as "kilometers: <km>, miles: <mi>".
    pub fn to_string(&self) -> (r: String)
        ensures
            r@ == "kilometers: "@ + decimal_text(self.spec_kilometers()) + ", miles: "@
                + decimal_text(self.spec_miles()),
    {
        let mut text = String::from_str("kilometers: ");
        let km = self.kilometers.to_string();
        text.append(km.as_str());
        text.append(", miles: ");
        let mi = self.miles.to_string();
        text.append(mi.as_str());
        text
    }
}

impl PartialEq for RailwayLength {
    fn eq(&self, other: &RailwayLength) -> (r: bool) {
        self.kilometers == other.kilometers && self.miles == other.miles
    }
}

impl vstd::std_specs::cmp::PartialEqSpecImpl for RailwayLength {
    open spec fn obeys_eq_spec() -> bool {
        true
    }

    open spec fn eq_spec(&self, other: &RailwayLength) -> bool {
        same_value(self.spec_kilometers(), other.spec_kilometers()) && same_value(
            self.spec_miles(),
            other.spec_miles(),
        )
    }
}

} // verus!

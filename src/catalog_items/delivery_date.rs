use vstd::prelude::*;

verus! {

/// When a catalog item is (or was) delivered: a year, with the quarter
/// where it is known.
#[derive(Debug, Copy, Clone, PartialEq, Eq, Structural)]
pub struct DeliveryDate {
    year: i32,
    quarter: Option<u8>,
}

impl DeliveryDate {
    pub closed spec fn spec_year(self) -> i32 {
        self.year
    }

    pub closed spec fn spec_quarter(self) -> Option<u8> {
        self.quarter
    }

    /// Delivered some time in `year`.
    pub fn by_year(year: i32) -> (r: DeliveryDate)
        ensures
            r.spec_year() == year,
            r.spec_quarter() is None,
    {
        DeliveryDate { year, quarter: None }
    }

    /// Delivered in quarter `quarter` (1 to 4) of `year`; `None` for any
    /// other quarter.
    pub fn by_quarter(year: i32, quarter: u8) -> (r: Option<DeliveryDate>)
        ensures
            r is Some <==> 1 <= quarter <= 4,
            r matches Some(d) ==> d.spec_year() == year && d.spec_quarter() == Some(quarter),
    {
        if 1 <= quarter && quarter <= 4 {
            Some(DeliveryDate { year, quarter: Some(quarter) })
        } else {
            None
        }
    }

    pub fn year(&self) -> (r: i32)
        ensures
            r == self.spec_year(),
    {
        self.year
    }

    pub fn quarter(&self) -> (r: Option<u8>)
        ensures
            r == self.spec_quarter(),
    {
        self.quarter
    }
}

} // verus!

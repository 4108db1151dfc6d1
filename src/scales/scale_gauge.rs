use crate::decimal::{same_value, Decimal};
use vstd::prelude::*;

verus! {

/// The track gauge of a modelling scale, in millimeters and inches.
#[derive(Debug, Clone, Copy)]
pub struct Gauge {
    track_gauge: TrackGauge,
    millimeters: Decimal,
    inches: Decimal,
}

impl Gauge {
    pub closed spec fn spec_track_gauge(self) -> TrackGauge {
        self.track_gauge
    }

    pub closed spec fn spec_millimeters(self) -> (int, nat) {
        self.millimeters@
    }

    pub closed spec fn spec_inches(self) -> (int, nat) {
        self.inches@
    }

    pub fn new(track_gauge: TrackGauge, millimeters: Decimal, inches: Decimal) -> (r: Gauge)
        ensures
            r.spec_track_gauge() == track_gauge,
            r.spec_millimeters() == millimeters@,
            r.spec_inches() == inches@,
    {
        Gauge { track_gauge, millimeters, inches }
    }

    pub fn track_gauge(&self) -> (r: TrackGauge)
        ensures
            r == self.spec_track_gauge(),
    {
        self.track_gauge
    }

    pub fn millimeters(&self) -> (r: Decimal)
        ensures
            r@ == self.spec_millimeters(),
    {
        self.millimeters
    }

    pub fn inches(&self) -> (r: Decimal)
        ensures
            r@ == self.spec_inches(),
    {
        self.inches
    }
}

impl PartialEq for Gauge {
    fn eq(&self, other: &Gauge) -> (r: bool) {
        self.track_gauge == other.track_gauge && self.millimeters == other.millimeters
            && self.inches == other.inches
    }
}

impl vstd::std_specs::cmp::PartialEqSpecImpl for Gauge {
    open spec fn obeys_eq_spec() -> bool {
        true
    }

    open spec fn eq_spec(&self, other: &Gauge) -> bool {
        self.spec_track_gauge() == other.spec_track_gauge() && same_value(
            self.spec_millimeters(),
            other.spec_millimeters(),
        ) && same_value(self.spec_inches(), other.spec_inches())
    }
}

/// In rail transport, track gauge is the distance between the two rails of a railway track.
/// All vehicles on a rail network must have wheel sets that are compatible with the track gauge.
///
/// Since many different track gauges exist worldwide, gauge differences often present a barrier to wider operation on
/// railway networks.
#[derive(Debug, Eq, PartialEq, Structural, Clone, Copy)]
pub enum TrackGauge {
    /// In modern usage, the term "broad gauge" generally refers to track spaced significantly wider than
    /// 1,435 mm (4 ft 8+1⁄2 inches).
    ///
    /// Broad gauge is the dominant gauge in countries in Indian subcontinent, the former Soviet Union (CIS states,
    /// Baltic states, Georgia and Ukraine), Mongolia and Finland, Spain, Portugal, Argentina, Chile and Ireland.
    /// It is also use for the suburban railway systems in South Australia, and Victoria, Australia.
    Broad,

    /// The term "medium gauge" had different meanings throughout history, depending on the local dominant gauge in use.
    Medium,

    /// Very narrow gauges of under 2 feet (610 mm) were used for some industrial railways in space-restricted
    /// environments such as mines or farms. The French company Decauville developed 500 mm (19+3⁄4 in) and
    /// 400 mm (15+3⁄4 in) tracks, mainly for mines; Heywood developed 15 in (381 mm) gauge for estate railways.
    /// The most common minimum-gauges were 15 in (381 mm), 400 mm (15+3⁄4 in), 16 in (406 mm), 18 in (457 mm),
    /// 500 mm (19+3⁄4 in) or 20 in (508 mm).
    Minimum,

    /// In modern usage, the term "narrow gauge" generally refers to track spaced significantly narrower than 1,435 mm
    /// (4 ft 8+1⁄2 in).
    Narrow,

    /// In modern usage the term "standard gauge" refers to 1,435 mm (4 ft 8+1⁄2 inches).
    /// Standard gauge is dominant in a majority of countries, including those in North America, most of western Europe,
    /// North Africa and the Middle east, and in China.
    Standard,
}

} // verus!

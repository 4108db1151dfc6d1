use crate::decimal::{same_value, Decimal};
use vstd::prelude::*;

verus! {

/// The technical data that a manufacturer gives for a model.
#[derive(Debug, Clone, Copy)]
pub struct TechSpecs {
    minimum_radius: Option<Radius>,
    coupling: Coupling,
    flywheel_fitted: FeatureFlag,
    close_couplers: FeatureFlag,
    metal_body: FeatureFlag,
    interior_lights: FeatureFlag,
    lights: FeatureFlag,
    spring_buffers: FeatureFlag,
    digital_shunting_coupling: FeatureFlag,
}

impl TechSpecs {
    pub closed spec fn spec_minimum_radius(self) -> Option<Radius> {
        self.minimum_radius
    }

    pub closed spec fn spec_coupling(self) -> Coupling {
        self.coupling
    }

    /// The feature flags in order: flywheel fitted, close couplers, metal
    /// body, interior lights, lights, spring buffers, digital shunting
    /// coupling.
    pub closed spec fn spec_flags(self) -> Seq<FeatureFlag> {
        seq![
            self.flywheel_fitted,
            self.close_couplers,
            self.metal_body,
            self.interior_lights,
            self.lights,
            self.spring_buffers,
            self.digital_shunting_coupling,
        ]
    }

    /// Technical data with the given radius, coupling and feature flags.
    pub fn new(
        minimum_radius: Option<Radius>,
        coupling: Coupling,
        flywheel_fitted: FeatureFlag,
        close_couplers: FeatureFlag,
        metal_body: FeatureFlag,
        interior_lights: FeatureFlag,
        lights: FeatureFlag,
        spring_buffers: FeatureFlag,
        digital_shunting_coupling: FeatureFlag,
    ) -> (r: TechSpecs)
        ensures
            r.spec_minimum_radius() == minimum_radius,
            r.spec_coupling() == coupling,
            r.spec_flags() == seq![
                flywheel_fitted,
                close_couplers,
                metal_body,
                interior_lights,
                lights,
                spring_buffers,
                digital_shunting_coupling,
            ],
    {
        TechSpecs {
            minimum_radius,
            coupling,
            flywheel_fitted,
            close_couplers,
            metal_body,
            interior_lights,
            lights,
            spring_buffers,
            digital_shunting_coupling,
        }
    }

    pub fn minimum_radius(&self) -> (r: Option<Radius>)
        ensures
            r == self.spec_minimum_radius(),
    {
        self.minimum_radius
    }

    pub fn coupling(&self) -> (r: Coupling)
        ensures
            r == self.spec_coupling(),
    {
        self.coupling
    }

    pub fn flywheel_fitted(&self) -> (r: FeatureFlag)
        ensures
            r == self.spec_flags()[0],
    {
        self.flywheel_fitted
    }

    pub fn close_couplers(&self) -> (r: FeatureFlag)
        ensures
            r == self.spec_flags()[1],
    {
        self.close_couplers
    }

    pub fn metal_body(&self) -> (r: FeatureFlag)
        ensures
            r == self.spec_flags()[2],
    {
        self.metal_body
    }

    pub fn interior_lights(&self) -> (r: FeatureFlag)
        ensures
            r == self.spec_flags()[3],
    {
        self.interior_lights
    }

    pub fn lights(&self) -> (r: FeatureFlag)
        ensures
            r == self.spec_flags()[4],
    {
        self.lights
    }

    pub fn spring_buffers(&self) -> (r: FeatureFlag)
        ensures
            r == self.spec_flags()[5],
    {
        self.spring_buffers
    }

    pub fn digital_shunting_coupling(&self) -> (r: FeatureFlag)
        ensures
            r == self.spec_flags()[6],
    {
        self.digital_shunting_coupling
    }
}

impl Default for TechSpecs {
    /// No radius, no coupling, every flag off.
    fn default() -> (r: TechSpecs)
        ensures
            r.spec_minimum_radius() is None,
            r.spec_coupling() == Coupling::NoCoupling,
            forall|i: int| 0 <= i < 7 ==> r.spec_flags()[i] == FeatureFlag::No,
    {
        TechSpecs::new(
            None,
            Coupling::NoCoupling,
            FeatureFlag::No,
            FeatureFlag::No,
            FeatureFlag::No,
            FeatureFlag::No,
            FeatureFlag::No,
            FeatureFlag::No,
            FeatureFlag::No,
        )
    }
}

#[derive(Debug, Eq, PartialEq, Structural, Copy, Clone)]
pub enum Coupling {
    /// No coupling fitted
    NoCoupling,
    /// Receptacle for Replaceable Coupling Heads in Scales TT and N
    Nem355,
    /// Coupler Head for Scale N
    Nem356,
    /// Coupler Head for Scale N
    Nem357,
    /// Coupler Head for Scale TT
    Nem359,
    /// Standard Coupling for Scale H0
    Nem360,
    /// NEM shaft 362 with close coupling mechanism
    Nem362,
    /// Coupler Head for Scale 0
    Nem365,
}

impl Default for Coupling {
    fn default() -> (r: Coupling)
        ensures
            r == Coupling::NoCoupling,
    {
        Coupling::NoCoupling
    }
}

#[derive(Debug, Eq, PartialEq, Structural, Copy, Clone)]
pub enum FeatureFlag {
    Yes,
    No,
}

impl Default for FeatureFlag {
    fn default() -> (r: FeatureFlag)
        ensures
            r == FeatureFlag::No,
    {
        FeatureFlag::No
    }
}

/// Two optional radii are both absent, or both present and equal.
pub open spec fn radius_opt_eq(a: Option<Radius>, b: Option<Radius>) -> bool {
    match (a, b) {
        (Some(x), Some(y)) => same_value(x@, y@),
        (None, None) => true,
        _ => false,
    }
}

/// Two sets of technical data hold equal radii, couplings and flags.
pub open spec fn tech_specs_eq(a: TechSpecs, b: TechSpecs) -> bool {
    radius_opt_eq(a.spec_minimum_radius(), b.spec_minimum_radius()) && a.spec_coupling()
        == b.spec_coupling() && a.spec_flags() == b.spec_flags()
}

impl PartialEq for TechSpecs {
    fn eq(&self, other: &TechSpecs) -> (r: bool) {
        let radius = match (&self.minimum_radius, &other.minimum_radius) {
            (Some(x), Some(y)) => x.0 == y.0,
            (None, None) => true,
            _ => false,
        };
        let same = radius && self.coupling == other.coupling && self.flywheel_fitted
            == other.flywheel_fitted && self.close_couplers == other.close_couplers
            && self.metal_body == other.metal_body && self.interior_lights == other.interior_lights
            && self.lights == other.lights && self.spring_buffers == other.spring_buffers
            && self.digital_shunting_coupling == other.digital_shunting_coupling;
        proof {
            if same {
                assert(self.spec_flags() =~= other.spec_flags());
            } else if radius && self.coupling == other.coupling {
                assert(self.spec_flags() != other.spec_flags()) by {
                    if self.spec_flags() == other.spec_flags() {
                        assert(self.spec_flags()[0] == other.spec_flags()[0]);
                        assert(self.spec_flags()[1] == other.spec_flags()[1]);
                        assert(self.spec_flags()[2] == other.spec_flags()[2]);
                        assert(self.spec_flags()[3] == other.spec_flags()[3]);
                        assert(self.spec_flags()[4] == other.spec_flags()[4]);
                        assert(self.spec_flags()[5] == other.spec_flags()[5]);
                        assert(self.spec_flags()[6] == other.spec_flags()[6]);
                    }
                }
            }
        }
        same
    }
}

impl vstd::std_specs::cmp::PartialEqSpecImpl for TechSpecs {
    open spec fn obeys_eq_spec() -> bool {
        true
    }

    open spec fn eq_spec(&self, other: &TechSpecs) -> bool {
        tech_specs_eq(*self, *other)
    }
}

impl PartialEq for Radius {
    /// Equal radii, whatever the scales of their values.
    fn eq(&self, other: &Radius) -> (r: bool) {
        self.0 == other.0
    }
}

impl vstd::std_specs::cmp::PartialEqSpecImpl for Radius {
    open spec fn obeys_eq_spec() -> bool {
        true
    }

    open spec fn eq_spec(&self, other: &Radius) -> bool {
        same_value(self@, other@)
    }
}

/// Minimum drivable radius, in millimeters; never negative.
#[derive(Debug, Copy, Clone)]
pub struct Radius(Decimal);

impl View for Radius {
    type V = (int, nat);

    closed spec fn view(&self) -> (int, nat) {
        self.0@
    }
}

impl Radius {
    #[verifier::type_invariant]
    spec fn non_negative(self) -> bool {
        self.0@.0 >= 0
    }

    /// The radius `value`; `None` if `value` is negative.
    pub fn new(value: Decimal) -> (r: Option<Radius>)
        ensures
            r is None <==> value@.0 < 0,
            r matches Some(radius) ==> radius@ == value@,
    {
        if value.is_sign_negative() {
            None
        } else {
            Some(Radius(value))
        }
    }

    /// The radius, never negative.
    pub fn value(&self) -> (r: Decimal)
        ensures
            r@ == self@,
            r@.0 >= 0,
    {
        proof {
            use_type_invariant(self);
        }
        self.0
    }
}

} // verus!

use crate::contact::{contact_texts, ContactInfo};
use crate::metadata::Metadata;
use crate::railways::period_of_activity::PeriodOfActivity;
use crate::railways::railway_gauge::RailwayGauge;
use crate::railways::railway_id::RailwayId;
use crate::railways::railway_length::RailwayLength;
use crate::railways::railway_ownership::Ownership;
use crate::socials::Socials;
use crate::decimal::same_value;
use crate::text::{as_str_opt, opt_string, opt_string_eq, opt_text, to_owned_opt};
use vstd::prelude::*;
use vstd::string::*;

verus! {

#[verifier::external_type_specification]
#[verifier::external_body]
pub struct ExCountryCode(isocountry::CountryCode);

/// Relies on `Clone for isocountry::CountryCode`, which is derived beside
/// `Copy`: the clone is the same code.
pub assume_specification[ <isocountry::CountryCode as Clone>::clone ](
    c: &isocountry::CountryCode,
) -> (r: isocountry::CountryCode)
    ensures
        r == *c,
;

/// Relies on `PartialEq for isocountry::CountryCode`, derived on a field-less
/// enum: two codes are equal exactly when they are the same code.
pub assume_specification[ <isocountry::CountryCode as PartialEq>::eq ](
    a: &isocountry::CountryCode,
    b: &isocountry::CountryCode,
) -> (r: bool)
    ensures
        r == (*a == *b),
;

/// Two optional network lengths are both absent, or both present with equal
/// kilometers and miles.
pub open spec fn length_opt_eq(a: Option<RailwayLength>, b: Option<RailwayLength>) -> bool {
    match (a, b) {
        (Some(x), Some(y)) => same_value(x.spec_kilometers(), y.spec_kilometers()) && same_value(
            x.spec_miles(),
            y.spec_miles(),
        ),
        (None, None) => true,
        _ => false,
    }
}

/// Two optional gauges are both absent, or both present and equal.
pub open spec fn gauge_opt_eq(a: Option<RailwayGauge>, b: Option<RailwayGauge>) -> bool {
    match (a, b) {
        (Some(x), Some(y)) => same_value(x.spec_meters(), y.spec_meters()) && x.spec_track_gauge()
            == y.spec_track_gauge(),
        (None, None) => true,
        _ => false,
    }
}

/// Two optional contact details are both absent, or both present and equal.
pub open spec fn contact_opt_eq(a: Option<ContactInfo>, b: Option<ContactInfo>) -> bool {
    match (a, b) {
        (Some(x), Some(y)) => contact_texts(x) == contact_texts(y),
        (None, None) => true,
        _ => false,
    }
}

/// Two optional sets of accounts are both absent, or both present and equal.
pub open spec fn socials_opt_eq(a: Option<Socials>, b: Option<Socials>) -> bool {
    match (a, b) {
        (Some(x), Some(y)) => x.spec_accounts() == y.spec_accounts(),
        (None, None) => true,
        _ => false,
    }
}

/// Two railway companies hold equal attributes (texts compared by their
/// characters, decimals by value).
pub open spec fn railway_eq(a: Railway, b: Railway) -> bool {
    &&& a.spec_id()@ == b.spec_id()@
    &&& a.spec_name() == b.spec_name()
    &&& a.spec_registered_company_name() == b.spec_registered_company_name()
    &&& a.spec_description() == b.spec_description()
    &&& a.spec_period_of_activity() == b.spec_period_of_activity()
    &&& length_opt_eq(a.spec_length(), b.spec_length())
    &&& gauge_opt_eq(a.spec_gauge(), b.spec_gauge())
    &&& a.spec_country() == b.spec_country()
    &&& a.spec_ownership() == b.spec_ownership()
    &&& a.spec_headquarters() == b.spec_headquarters()
    &&& contact_opt_eq(a.spec_contact_info(), b.spec_contact_info())
    &&& socials_opt_eq(a.spec_socials(), b.spec_socials())
    &&& a.spec_metadata() == b.spec_metadata()
}

/// A railway company is a company within the rail industry.
///
/// It can be a manufacturing firm or an operator. Some railway companies operate both the trains
/// and the track, while, particularly in the European Union, operation of the track is undertaken
/// by infrastructure operators and trains are run by different companies.
///
/// Railway companies can be private or public.
#[derive(Debug, Clone)]
pub struct Railway {
    railway_id: RailwayId,
    name: String,
    registered_company_name: String,
    description: Option<String>,
    period_of_activity: Option<PeriodOfActivity>,
    length: Option<RailwayLength>,
    gauge: Option<RailwayGauge>,
    country: isocountry::CountryCode,
    ownership: Option<Ownership>,
    headquarters: Option<String>,
    contact_info: Option<ContactInfo>,
    socials: Option<Socials>,
    metadata: Metadata,
}

impl Railway {
    pub closed spec fn spec_id(self) -> RailwayId {
        self.railway_id
    }

    pub closed spec fn spec_name(self) -> Seq<char> {
        self.name@
    }

    pub closed spec fn spec_registered_company_name(self) -> Seq<char> {
        self.registered_company_name@
    }

    pub closed spec fn spec_description(self) -> Option<Seq<char>> {
        opt_string(self.description)
    }

    pub closed spec fn spec_period_of_activity(self) -> Option<PeriodOfActivity> {
        self.period_of_activity
    }

    pub closed spec fn spec_length(self) -> Option<RailwayLength> {
        self.length
    }

    pub closed spec fn spec_gauge(self) -> Option<RailwayGauge> {
        self.gauge
    }

    pub closed spec fn spec_country(self) -> isocountry::CountryCode {
        self.country
    }

    pub closed spec fn spec_ownership(self) -> Option<Ownership> {
        self.ownership
    }

    pub closed spec fn spec_headquarters(self) -> Option<Seq<char>> {
        opt_string(self.headquarters)
    }

    pub closed spec fn spec_contact_info(self) -> Option<ContactInfo> {
        self.contact_info
    }

    pub closed spec fn spec_socials(self) -> Option<Socials> {
        self.socials
    }

    pub closed spec fn spec_metadata(self) -> Metadata {
        self.metadata
    }

    /// Create new railway
    pub fn new(
        railway_id: RailwayId,
        name: &str,
        registered_company_name: &str,
        description: Option<&str>,
        period_of_activity: Option<PeriodOfActivity>,
        length: Option<RailwayLength>,
        gauge: Option<RailwayGauge>,
        country: isocountry::CountryCode,
        ownership: Option<Ownership>,
        headquarters: Option<&str>,
        contact_info: Option<ContactInfo>,
        socials: Option<Socials>,
        metadata: Metadata,
    ) -> (r: Railway)
        ensures
            r.spec_id() == railway_id,
            r.spec_name() == name@,
            r.spec_registered_company_name() == registered_company_name@,
            r.spec_description() == opt_text(description),
            r.spec_period_of_activity() == period_of_activity,
            r.spec_length() == length,
            r.spec_gauge() == gauge,
            r.spec_country() == country,
            r.spec_ownership() == ownership,
            r.spec_headquarters() == opt_text(headquarters),
            r.spec_contact_info() == contact_info,
            r.spec_socials() == socials,
            r.spec_metadata() == metadata,
    {
        Railway {
            railway_id,
            name: String::from_str(name),
            registered_company_name: String::from_str(registered_company_name),
            description: to_owned_opt(description),
            period_of_activity,
            length,
            gauge,
            country,
            ownership,
            headquarters: to_owned_opt(headquarters),
            contact_info,
            socials,
            metadata,
        }
    }

    /// The unique identifier for this Railway company
    pub fn railway_id(&self) -> (r: &RailwayId)
        ensures
            *r == self.spec_id(),
    {
        &self.railway_id
    }

    /// The name for this Railway company
    pub fn name(&self) -> (r: &str)
        ensures
            r@ == self.spec_name(),
    {
        self.name.as_str()
    }

    /// The registered company name (the more formal denomination)
    /// for this Railway company
    pub fn registered_company_name(&self) -> (r: &str)
        ensures
            r@ == self.spec_registered_company_name(),
    {
        self.registered_company_name.as_str()
    }

    /// The description for this Railway company
    pub fn description(&self) -> (r: Option<&str>)
        ensures
            opt_text(r) == self.spec_description(),
    {
        as_str_opt(&self.description)
    }

    /// The period of activity (active/inactive) for this Railway company
    pub fn period_of_activity(&self) -> (r: Option<&PeriodOfActivity>)
        ensures
            match r {
                Some(p) => self.spec_period_of_activity() == Some(*p),
                None => self.spec_period_of_activity() is None,
            },
    {
        self.period_of_activity.as_ref()
    }

    /// Returns the total railway network length controlled by this Railway company
    pub fn length(&self) -> (r: Option<&RailwayLength>)
        ensures
            match r {
                Some(l) => self.spec_length() == Some(*l),
                None => self.spec_length() is None,
            },
    {
        self.length.as_ref()
    }

    pub fn gauge(&self) -> (r: Option<&RailwayGauge>)
        ensures
            match r {
                Some(g) => self.spec_gauge() == Some(*g),
                None => self.spec_gauge() is None,
            },
    {
        self.gauge.as_ref()
    }

    pub fn country(&self) -> (r: &isocountry::CountryCode)
        ensures
            *r == self.spec_country(),
    {
        &self.country
    }

    pub fn headquarters(&self) -> (r: Option<&str>)
        ensures
            opt_text(r) == self.spec_headquarters(),
    {
        as_str_opt(&self.headquarters)
    }

    pub fn ownership(&self) -> (r: Option<Ownership>)
        ensures
            r == self.spec_ownership(),
    {
        self.ownership
    }

    pub fn contact_info(&self) -> (r: Option<&ContactInfo>)
        ensures
            match r {
                Some(c) => self.spec_contact_info() == Some(*c),
                None => self.spec_contact_info() is None,
            },
    {
        self.contact_info.as_ref()
    }

    pub fn socials(&self) -> (r: Option<&Socials>)
        ensures
            match r {
                Some(s) => self.spec_socials() == Some(*s),
                None => self.spec_socials() is None,
            },
    {
        self.socials.as_ref()
    }

    /// Returns the metadata for this Railway company
    pub fn metadata(&self) -> (r: &Metadata)
        ensures
            *r == self.spec_metadata(),
    {
        &self.metadata
    }

    /// Renders as "<name> - <registered company name>".
    pub fn to_string(&self) -> (r: String)
        ensures
            r@ == self.spec_name() + " - "@ + self.spec_registered_company_name(),
    {
        let mut text = self.name.clone();
        text.append(" - ");
        text.append(self.registered_company_name.as_str());
        text
    }
}

impl PartialEq for Railway {
    fn eq(&self, other: &Railway) -> (r: bool) {
        self.railway_id == other.railway_id && self.name == other.name
            && self.registered_company_name == other.registered_company_name && opt_string_eq(
            &self.description,
            &other.description,
        ) && self.period_of_activity == other.period_of_activity && self.length == other.length
            && self.gauge == other.gauge && self.country == other.country && self.ownership
            == other.ownership && opt_string_eq(&self.headquarters, &other.headquarters)
            && self.contact_info == other.contact_info && self.socials == other.socials
            && self.metadata == other.metadata
    }
}

impl vstd::std_specs::cmp::PartialEqSpecImpl for Railway {
    open spec fn obeys_eq_spec() -> bool {
        true
    }

    open spec fn eq_spec(&self, other: &Railway) -> bool {
        railway_eq(*self, *other)
    }
}

} // verus!

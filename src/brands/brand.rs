use crate::brands::brand_id::BrandId;
use crate::brands::brand_status::BrandStatus;
use crate::brands::brand_type::BrandType;
use crate::contact::ContactInfo;
use crate::metadata::Metadata;
use crate::socials::Socials;
use crate::text::{as_str_opt, opt_string, opt_text, to_owned_opt};
use vstd::prelude::*;
use vstd::string::*;

verus! {

/// A model railways manufacturer.
#[derive(Debug, Clone)]
pub struct Brand {
    brand_id: BrandId,
    name: String,
    registered_company_name: Option<String>,
    group_name: Option<String>,
    description: Option<String>,
    contact_info: Option<ContactInfo>,
    brand_type: BrandType,
    status: BrandStatus,
    socials: Option<Socials>,
    metadata: Metadata,
}

impl Brand {
    pub closed spec fn spec_id(self) -> BrandId {
        self.brand_id
    }

    pub closed spec fn spec_name(self) -> Seq<char> {
        self.name@
    }

    /// Registered company name, group name and description, in this order.
    pub closed spec fn spec_texts(self) -> Seq<Option<Seq<char>>> {
        seq![
            opt_string(self.registered_company_name),
            opt_string(self.group_name),
            opt_string(self.description),
        ]
    }

    pub closed spec fn spec_contact_info(self) -> Option<ContactInfo> {
        self.contact_info
    }

    pub closed spec fn spec_brand_type(self) -> BrandType {
        self.brand_type
    }

    pub closed spec fn spec_status(self) -> BrandStatus {
        self.status
    }

    pub closed spec fn spec_socials(self) -> Option<Socials> {
        self.socials
    }

    pub closed spec fn spec_metadata(self) -> Metadata {
        self.metadata
    }

    pub fn new(
        brand_id: BrandId,
        name: &str,
        registered_company_name: Option<&str>,
        group_name: Option<&str>,
        description: Option<&str>,
        brand_type: BrandType,
        status: BrandStatus,
        contact_info: Option<ContactInfo>,
        socials: Option<Socials>,
        metadata: Metadata,
    ) -> (r: Brand)
        ensures
            r.spec_id() == brand_id,
            r.spec_name() == name@,
            r.spec_texts() == seq![
                opt_text(registered_company_name),
                opt_text(group_name),
                opt_text(description),
            ],
            r.spec_brand_type() == brand_type,
            r.spec_status() == status,
            r.spec_contact_info() == contact_info,
            r.spec_socials() == socials,
            r.spec_metadata() == metadata,
    {
        Brand {
            brand_id,
            name: String::from_str(name),
            registered_company_name: to_owned_opt(registered_company_name),
            group_name: to_owned_opt(group_name),
            description: to_owned_opt(description),
            contact_info,
            brand_type,
            status,
            socials,
            metadata,
        }
    }

    /// Returns this brand unique identifier
    pub fn brand_id(&self) -> (r: &BrandId)
        ensures
            *r == self.spec_id(),
    {
        &self.brand_id
    }

    /// Returns this brand name
    pub fn name(&self) -> (r: &str)
        ensures
            r@ == self.spec_name(),
    {
        self.name.as_str()
    }

    /// Returns this brand registered company name
    pub fn registered_company_name(&self) -> (r: Option<&str>)
        ensures
            opt_text(r) == self.spec_texts()[0],
    {
        as_str_opt(&self.registered_company_name)
    }

    pub fn group_name(&self) -> (r: Option<&str>)
        ensures
            opt_text(r) == self.spec_texts()[1],
    {
        as_str_opt(&self.group_name)
    }

    /// Returns this brand description
    pub fn description(&self) -> (r: Option<&str>)
        ensures
            opt_text(r) == self.spec_texts()[2],
    {
        as_str_opt(&self.description)
    }

    /// Returns this brand type
    pub fn brand_type(&self) -> (r: BrandType)
        ensures
            r == self.spec_brand_type(),
    {
        self.brand_type
    }

    pub fn contact_info(&self) -> (r: Option<&ContactInfo>)
        ensures
            match r {
                Some(c) => self.spec_contact_info() == Some(*c),
                None => self.spec_contact_info() is None,
            },
    {
        self.contact_info.as_ref()
    }

    /// The brand still trades.
    pub fn is_active(&self) -> (r: bool)
        ensures
            r == (self.spec_status() == BrandStatus::Active),
    {
        self.status == BrandStatus::Active
    }

    pub fn socials(&self) -> (r: Option<&Socials>)
        ensures
            match r {
                Some(s) => self.spec_socials() == Some(*s),
                None => self.spec_socials() is None,
            },
    {
        self.socials.as_ref()
    }

    pub fn metadata(&self) -> (r: &Metadata)
        ensures
            *r == self.spec_metadata(),
    {
        &self.metadata
    }

    /// The brand name.
    pub fn to_string(&self) -> (r: String)
        ensures
            r@ == self.spec_name(),
    {
        self.name.clone()
    }
}

} // verus!

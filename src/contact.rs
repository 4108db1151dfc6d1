//! Contact details of a company.
pub mod mail_address;
pub mod phone_number;
pub mod website_url;

use crate::contact::mail_address::MailAddress;
use crate::contact::phone_number::PhoneNumber;
use crate::contact::website_url::WebsiteUrl;
use vstd::prelude::*;

verus! {

/// How to reach a company: e-mail, website and phone, each optional.
#[derive(Debug, Clone)]
pub struct ContactInfo {
    email: Option<MailAddress>,
    website_url: Option<WebsiteUrl>,
    phone: Option<PhoneNumber>,
}

impl ContactInfo {
    pub closed spec fn spec_email(self) -> Option<MailAddress> {
        self.email
    }

    pub closed spec fn spec_website_url(self) -> Option<WebsiteUrl> {
        self.website_url
    }

    pub closed spec fn spec_phone(self) -> Option<PhoneNumber> {
        self.phone
    }

    pub fn new(
        email: Option<MailAddress>,
        website_url: Option<WebsiteUrl>,
        phone: Option<PhoneNumber>,
    ) -> (r: ContactInfo)
        ensures
            r.spec_email() == email,
            r.spec_website_url() == website_url,
            r.spec_phone() == phone,
    {
        ContactInfo { email, website_url, phone }
    }

    pub fn email(&self) -> (r: Option<&MailAddress>)
        ensures
            match r {
                Some(e) => self.spec_email() == Some(*e),
                None => self.spec_email() is None,
            },
    {
        self.email.as_ref()
    }

    pub fn phone(&self) -> (r: Option<&PhoneNumber>)
        ensures
            match r {
                Some(p) => self.spec_phone() == Some(*p),
                None => self.spec_phone() is None,
            },
    {
        self.phone.as_ref()
    }

    pub fn website_url(&self) -> (r: Option<&WebsiteUrl>)
        ensures
            match r {
                Some(u) => self.spec_website_url() == Some(*u),
                None => self.spec_website_url() is None,
            },
    {
        self.website_url.as_ref()
    }
}

/// The texts of the three contact details, each optional.
pub open spec fn contact_texts(c: ContactInfo) -> (Option<Seq<char>>, Option<Seq<char>>, Option<Seq<char>>) {
    (
        match c.spec_email() {
            Some(e) => Some(e@),
            None => None,
        },
        match c.spec_website_url() {
            Some(u) => Some(u@),
            None => None,
        },
        match c.spec_phone() {
            Some(p) => Some(p@),
            None => None,
        },
    )
}

impl PartialEq for ContactInfo {
    fn eq(&self, other: &ContactInfo) -> (r: bool) {
        self.email == other.email && self.website_url == other.website_url && self.phone
            == other.phone
    }
}

impl vstd::std_specs::cmp::PartialEqSpecImpl for ContactInfo {
    open spec fn obeys_eq_spec() -> bool {
        true
    }

    open spec fn eq_spec(&self, other: &ContactInfo) -> bool {
        contact_texts(*self) == contact_texts(*other)
    }
}

} // verus!

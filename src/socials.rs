//! Social network accounts of a company.
use vstd::prelude::*;
use vstd::string::*;

verus! {

/// The accounts of a company on social networks, each optional.
#[derive(Debug, Clone)]
pub struct Socials {
    facebook: Option<Handler>,
    instagram: Option<Handler>,
    linkedin: Option<Handler>,
    twitter: Option<Handler>,
    youtube: Option<Handler>,
}

/// The handler name of an optional account.
pub open spec fn handler_text(h: Option<Handler>) -> Option<Seq<char>> {
    match h {
        Some(x) => Some(x@),
        None => None,
    }
}

/// The handler name of an optional borrowed account.
pub open spec fn handler_ref_text(h: Option<&Handler>) -> Option<Seq<char>> {
    match h {
        Some(x) => Some(x@),
        None => None,
    }
}

impl Socials {
    /// The accounts in order: facebook, instagram, linkedin, twitter,
    /// youtube.
    pub closed spec fn spec_accounts(self) -> Seq<Option<Seq<char>>> {
        seq![
            handler_text(self.facebook),
            handler_text(self.instagram),
            handler_text(self.linkedin),
            handler_text(self.twitter),
            handler_text(self.youtube),
        ]
    }

    pub fn new(
        facebook: Option<Handler>,
        instagram: Option<Handler>,
        linkedin: Option<Handler>,
        twitter: Option<Handler>,
        youtube: Option<Handler>,
    ) -> (r: Socials)
        ensures
            r.spec_accounts() == seq![
                handler_text(facebook),
                handler_text(instagram),
                handler_text(linkedin),
                handler_text(twitter),
                handler_text(youtube),
            ],
    {
        Socials { facebook, instagram, linkedin, twitter, youtube }
    }

    pub fn facebook(&self) -> (r: Option<&Handler>)
        ensures
            handler_ref_text(r) == self.spec_accounts()[0],
    {
        self.facebook.as_ref()
    }

    pub fn instagram(&self) -> (r: Option<&Handler>)
        ensures
            handler_ref_text(r) == self.spec_accounts()[1],
    {
        self.instagram.as_ref()
    }

    pub fn linkedin(&self) -> (r: Option<&Handler>)
        ensures
            handler_ref_text(r) == self.spec_accounts()[2],
    {
        self.linkedin.as_ref()
    }

    pub fn twitter(&self) -> (r: Option<&Handler>)
        ensures
            handler_ref_text(r) == self.spec_accounts()[3],
    {
        self.twitter.as_ref()
    }

    pub fn youtube(&self) -> (r: Option<&Handler>)
        ensures
            handler_ref_text(r) == self.spec_accounts()[4],
    {
        self.youtube.as_ref()
    }
}

impl Default for Socials {
    /// No accounts.
    fn default() -> (r: Socials)
        ensures
            forall|i: int| 0 <= i < 5 ==> r.spec_accounts()[i] is None,
    {
        Socials { facebook: None, instagram: None, linkedin: None, twitter: None, youtube: None }
    }
}

impl PartialEq for Socials {
    fn eq(&self, other: &Socials) -> (r: bool) {
        let same = self.facebook == other.facebook && self.instagram == other.instagram
            && self.linkedin == other.linkedin && self.twitter == other.twitter && self.youtube
            == other.youtube;
        proof {
            if !same {
                assert(self.spec_accounts() != other.spec_accounts()) by {
                    if self.spec_accounts() == other.spec_accounts() {
                        assert(self.spec_accounts()[0] == other.spec_accounts()[0]);
                        assert(self.spec_accounts()[1] == other.spec_accounts()[1]);
                        assert(self.spec_accounts()[2] == other.spec_accounts()[2]);
                        assert(self.spec_accounts()[3] == other.spec_accounts()[3]);
                        assert(self.spec_accounts()[4] == other.spec_accounts()[4]);
                    }
                }
            } else {
                assert(self.spec_accounts() =~= other.spec_accounts());
            }
        }
        same
    }
}

impl vstd::std_specs::cmp::PartialEqSpecImpl for Socials {
    open spec fn obeys_eq_spec() -> bool {
        true
    }

    open spec fn eq_spec(&self, other: &Socials) -> bool {
        self.spec_accounts() == other.spec_accounts()
    }
}

/// The name of an account on a social network; never empty.
#[derive(Debug, Clone)]
pub struct Handler(String);

impl View for Handler {
    type V = Seq<char>;

    closed spec fn view(&self) -> Seq<char> {
        self.0@
    }
}

impl Handler {
    /// The handler `value`; fails when `value` is empty.
    pub fn try_from(value: &str) -> (r: Result<Handler, ()>)
        ensures
            r is Ok <==> value@.len() > 0,
            r matches Ok(h) ==> h@ == value@,
    {
        if value.unicode_len() == 0 {
            Err(())
        } else {
            Ok(Handler(String::from_str(value)))
        }
    }

    /// The handler name.
    pub fn value(&self) -> (r: &str)
        ensures
            r@ == self@,
    {
        self.0.as_str()
    }
}

impl PartialEq for Handler {
    fn eq(&self, other: &Handler) -> (r: bool) {
        self.0 == other.0
    }
}

impl vstd::std_specs::cmp::PartialEqSpecImpl for Handler {
    open spec fn obeys_eq_spec() -> bool {
        true
    }

    open spec fn eq_spec(&self, other: &Handler) -> bool {
        self@ == other@
    }
}

} // verus!

use crate::text::opt_string;
use vstd::prelude::*;

verus! {

/// The text that `url::Url` gives for the URL written in a text, if the text
/// holds a valid URL.
pub uninterp spec fn url_of_text(s: Seq<char>) -> Option<Seq<char>>;

/// Relies on `url::Url::parse` and `Display for url::Url`: the normalized
/// text of the URL, or `None` where the text is no valid URL; it depends on
/// the text alone.
#[verifier::external_body]
fn parse_url(s: &str) -> (r: Option<String>)
    ensures
        opt_string(r) == url_of_text(s@),
{
    match url::Url::parse(s) {
        Ok(url) => Some(url.to_string()),
        Err(_) => None,
    }
}

/// The address of a website, in the normal form that URL parsing gives it.
#[derive(Debug, Clone)]
pub struct WebsiteUrl(String);

impl View for WebsiteUrl {
    type V = Seq<char>;

    closed spec fn view(&self) -> Seq<char> {
        self.0@
    }
}

impl WebsiteUrl {
    /// The URL written in `value`; fails where it holds no valid URL.
    pub fn try_from(value: &str) -> (r: Result<WebsiteUrl, ()>)
        ensures
            r is Ok <==> url_of_text(value@) is Some,
            r matches Ok(u) ==> url_of_text(value@) == Some(u@),
    {
        match parse_url(value) {
            Some(text) => Ok(WebsiteUrl(text)),
            None => Err(()),
        }
    }

    /// The normalized URL text.
    pub fn to_string(&self) -> (r: String)
        ensures
            r@ == self@,
    {
        self.0.clone()
    }
}

impl PartialEq for WebsiteUrl {
    fn eq(&self, other: &WebsiteUrl) -> (r: bool) {
        self.0 == other.0
    }
}

impl vstd::std_specs::cmp::PartialEqSpecImpl for WebsiteUrl {
    open spec fn obeys_eq_spec() -> bool {
        true
    }

    open spec fn eq_spec(&self, other: &WebsiteUrl) -> bool {
        self@ == other@
    }
}

} // verus!

use crate::text::text_equals;
use vstd::string::*;
use vstd::prelude::*;

verus! {

/// The kind of products a brand makes.
#[derive(Debug, Copy, Clone, PartialEq, Eq, Structural)]
pub enum BrandType {
    Industrial,
    BrassModels,
}

/// The brand type that a text names, if any.
pub open spec fn brand_type_named(s: Seq<char>) -> Option<BrandType> {
    if s == "industrial"@ {
        Some(BrandType::Industrial)
    } else if s == "brass_models"@ {
        Some(BrandType::BrassModels)
    } else {
        None
    }
}

impl BrandType {
    /// Reads "industrial" or "brass_models"; a blank text and any other text
    /// are two different errors.
    pub fn parse(s: &str) -> (r: Result<BrandType, &'static str>)
        ensures
            r is Ok <==> brand_type_named(s@) is Some,
            r matches Ok(t) ==> brand_type_named(s@) == Some(t),
            r matches Err(e) ==> (s@.len() == 0 ==> e@ == "The brand type value cannot be blank"@)
                && (s@.len() > 0 ==> e@ == "Invalid value for brand type"@),
    {
        if s.unicode_len() == 0 {
            proof {
                reveal_strlit("industrial");
                reveal_strlit("brass_models");
            }
            return Err("The brand type value cannot be blank");
        }
        if text_equals(s, "industrial") {
            Ok(BrandType::Industrial)
        } else if text_equals(s, "brass_models") {
            Ok(BrandType::BrassModels)
        } else {
            Err("Invalid value for brand type")
        }
    }
}

impl Default for BrandType {
    fn default() -> (r: BrandType)
        ensures
            r == BrandType::Industrial,
    {
        BrandType::Industrial
    }
}

impl std::str::FromStr for BrandType {
    type Err = &'static str;

    fn from_str(s: &str) -> Result<BrandType, &'static str> {
        BrandType::parse(s)
    }
}

} // verus!

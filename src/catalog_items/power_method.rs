use crate::text::text_equals;
use vstd::prelude::*;
use vstd::string::*;

verus! {

/// The power methods for the model.
#[derive(Debug, Copy, Clone, PartialEq, Eq, Structural)]
pub enum PowerMethod {
    /// Direct current.
    DC,
    /// Alternating current (Maerklin).
    AC,
}

/// The power method that a text names, if any.
pub open spec fn power_method_named(s: Seq<char>) -> Option<PowerMethod> {
    if s == "DC"@ {
        Some(PowerMethod::DC)
    } else if s == "AC"@ {
        Some(PowerMethod::AC)
    } else {
        None
    }
}

impl PowerMethod {
    /// Reads "DC" or "AC"; a blank text and any other text are two
    /// different errors.
    pub fn parse(s: &str) -> (r: Result<PowerMethod, &'static str>)
        ensures
            r is Ok <==> power_method_named(s@) is Some,
            r matches Ok(p) ==> power_method_named(s@) == Some(p),
            r matches Err(e) ==> (s@.len() == 0 ==> e@ == "Power method value cannot be blank"@)
                && (s@.len() > 0 ==> e@
                == "Invalid value for power methods [allowed: 'AC' or 'DC']"@),
    {
        if s.unicode_len() == 0 {
            proof {
                reveal_strlit("DC");
                reveal_strlit("AC");
            }
            return Err("Power method value cannot be blank");
        }
        if text_equals(s, "DC") {
            Ok(PowerMethod::DC)
        } else if text_equals(s, "AC") {
            Ok(PowerMethod::AC)
        } else {
            Err("Invalid value for power methods [allowed: 'AC' or 'DC']")
        }
    }

    /// "DC" or "AC".
    pub fn to_string(&self) -> (r: String)
        ensures
            r@ == match *self {
                PowerMethod::DC => "DC"@,
                PowerMethod::AC => "AC"@,
            },
    {
        match self {
            PowerMethod::DC => String::from_str("DC"),
            PowerMethod::AC => String::from_str("AC"),
        }
    }
}

impl std::str::FromStr for PowerMethod {
    type Err = &'static str;

    fn from_str(s: &str) -> Result<PowerMethod, &'static str> {
        PowerMethod::parse(s)
    }
}

} // verus!

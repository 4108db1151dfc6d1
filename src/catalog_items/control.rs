use crate::text::text_equals;
use vstd::prelude::*;
use vstd::string::*;

verus! {

/// The control method for this railway model.
#[derive(Debug, Copy, Clone, PartialEq, Eq, Structural)]
pub enum Control {
    /// The model can be fitted with a dcc decoder.
    DccReady,
    /// The model has a dcc decoder installed.
    Dcc,
    /// The model has a dcc decoder installed with the sound module.
    DccSound,
    NoDcc,
}

/// The control method that a text names, if any.
pub open spec fn control_named(s: Seq<char>) -> Option<Control> {
    if s == "DCC_READY"@ {
        Some(Control::DccReady)
    } else if s == "DCC"@ {
        Some(Control::Dcc)
    } else if s == "DCC_SOUND"@ {
        Some(Control::DccSound)
    } else {
        None
    }
}

/// The model carries a decoder.
pub open spec fn has_decoder(c: Control) -> bool {
    c == Control::Dcc || c == Control::DccSound
}

impl Control {
    /// Reads "DCC_READY", "DCC" or "DCC_SOUND"; a blank text and any other
    /// text are two different errors.
    pub fn parse(s: &str) -> (r: Result<Control, &'static str>)
        ensures
            r is Ok <==> control_named(s@) is Some,
            r matches Ok(c) ==> control_named(s@) == Some(c),
            r matches Err(e) ==> (s@.len() == 0 ==> e@ == "Control value cannot be blank"@) && (
            s@.len() > 0 ==> e@
                == "Invalid value for control [allowed values are DCC, DCC_READY, DCC_SOUND]"@),
    {
        if s.unicode_len() == 0 {
            proof {
                reveal_strlit("DCC_READY");
                reveal_strlit("DCC");
                reveal_strlit("DCC_SOUND");
            }
            return Err("Control value cannot be blank");
        }
        if text_equals(s, "DCC_READY") {
            Ok(Control::DccReady)
        } else if text_equals(s, "DCC") {
            Ok(Control::Dcc)
        } else if text_equals(s, "DCC_SOUND") {
            Ok(Control::DccSound)
        } else {
            Err("Invalid value for control [allowed values are DCC, DCC_READY, DCC_SOUND]")
        }
    }

    /// The model carries a decoder (with or without sound).
    pub fn with_decoder(&self) -> (r: bool)
        ensures
            r == has_decoder(*self),
    {
        match self {
            Control::Dcc | Control::DccSound => true,
            _ => false,
        }
    }

    /// The name of the variant, e.g. "DccReady".
    pub fn to_string(&self) -> (r: String)
        ensures
            r@ == match *self {
                Control::DccReady => "DccReady"@,
                Control::Dcc => "Dcc"@,
                Control::DccSound => "DccSound"@,
                Control::NoDcc => "NoDcc"@,
            },
    {
        match self {
            Control::DccReady => String::from_str("DccReady"),
            Control::Dcc => String::from_str("Dcc"),
            Control::DccSound => String::from_str("DccSound"),
            Control::NoDcc => String::from_str("NoDcc"),
        }
    }
}

impl std::str::FromStr for Control {
    type Err = &'static str;

    fn from_str(s: &str) -> Result<Control, &'static str> {
        Control::parse(s)
    }
}

/// NMRA and NEM Connectors for digital control (DCC)
#[derive(Debug, Copy, Clone, PartialEq, Eq, Structural)]
pub enum DccInterface {
    Nem651,
    Nem652,
    Plux8,
    Plux16,
    Plux22,
    Next18,
    Mtc21,
}

/// The connector that a text names, if any.
pub open spec fn dcc_interface_named(s: Seq<char>) -> Option<DccInterface> {
    if s == "NEM_651"@ {
        Some(DccInterface::Nem651)
    } else if s == "NEM_652"@ {
        Some(DccInterface::Nem652)
    } else if s == "PLUX_8"@ {
        Some(DccInterface::Plux8)
    } else if s == "PLUX_16"@ {
        Some(DccInterface::Plux16)
    } else if s == "PLUX_22"@ {
        Some(DccInterface::Plux22)
    } else if s == "NEXT_18"@ {
        Some(DccInterface::Next18)
    } else if s == "MTC_21"@ {
        Some(DccInterface::Mtc21)
    } else {
        None
    }
}

impl DccInterface {
    /// Reads "NEM_651", "NEM_652", "PLUX_8", "PLUX_16", "PLUX_22", "NEXT_18"
    /// or "MTC_21"; a blank text and any other text are two different errors.
    pub fn parse(s: &str) -> (r: Result<DccInterface, &'static str>)
        ensures
            r is Ok <==> dcc_interface_named(s@) is Some,
            r matches Ok(d) ==> dcc_interface_named(s@) == Some(d),
            r matches Err(e) ==> (s@.len() == 0 ==> e@ == "Dcc interface value cannot be blank"@)
                && (s@.len() > 0 ==> e@ == "Invalid value for dcc interfaces"@),
    {
        if s.unicode_len() == 0 {
            proof {
                reveal_strlit("NEM_651");
                reveal_strlit("NEM_652");
                reveal_strlit("PLUX_8");
                reveal_strlit("PLUX_16");
                reveal_strlit("PLUX_22");
                reveal_strlit("NEXT_18");
                reveal_strlit("MTC_21");
            }
            return Err("Dcc interface value cannot be blank");
        }
        if text_equals(s, "NEM_651") {
            Ok(DccInterface::Nem651)
        } else if text_equals(s, "NEM_652") {
            Ok(DccInterface::Nem652)
        } else if text_equals(s, "PLUX_8") {
            Ok(DccInterface::Plux8)
        } else if text_equals(s, "PLUX_16") {
            Ok(DccInterface::Plux16)
        } else if text_equals(s, "PLUX_22") {
            Ok(DccInterface::Plux22)
        } else if text_equals(s, "NEXT_18") {
            Ok(DccInterface::Next18)
        } else if text_equals(s, "MTC_21") {
            Ok(DccInterface::Mtc21)
        } else {
            Err("Invalid value for dcc interfaces")
        }
    }

    /// The name of the variant, e.g. "Nem652".
    pub fn to_string(&self) -> (r: String)
        ensures
            r@ == match *self {
                DccInterface::Nem651 => "Nem651"@,
                DccInterface::Nem652 => "Nem652"@,
                DccInterface::Plux8 => "Plux8"@,
                DccInterface::Plux16 => "Plux16"@,
                DccInterface::Plux22 => "Plux22"@,
                DccInterface::Next18 => "Next18"@,
                DccInterface::Mtc21 => "Mtc21"@,
            },
    {
        match self {
            DccInterface::Nem651 => String::from_str("Nem651"),
            DccInterface::Nem652 => String::from_str("Nem652"),
            DccInterface::Plux8 => String::from_str("Plux8"),
            DccInterface::Plux16 => String::from_str("Plux16"),
            DccInterface::Plux22 => String::from_str("Plux22"),
            DccInterface::Next18 => String::from_str("Next18"),
            DccInterface::Mtc21 => String::from_str("Mtc21"),
        }
    }
}

impl std::str::FromStr for DccInterface {
    type Err = &'static str;

    fn from_str(s: &str) -> Result<DccInterface, &'static str> {
        DccInterface::parse(s)
    }
}

} // verus!

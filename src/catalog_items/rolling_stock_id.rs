use vstd::prelude::*;

verus! {

/// The UUID that a text holds, if it holds one (`uuid::Uuid::try_parse`).
pub uninterp spec fn uuid_of_text(s: Seq<char>) -> Option<u128>;

/// The hyphenated lower-case text of a UUID.
pub uninterp spec fn uuid_text(v: u128) -> Seq<char>;

/// The bits of a random UUID: version 4, RFC 4122 variant.
pub open spec fn is_random_uuid(v: u128) -> bool {
    (v >> 76u128) & 0xfu128 == 4 && (v >> 62u128) & 0x3u128 == 2
}

/// Relies on `uuid::Uuid::new_v4`: a random UUID, as its 128 bits, whose
/// version bits say 4 and whose variant bits say RFC 4122.
#[verifier::external_body]
fn random_uuid() -> (r: u128)
    ensures
        is_random_uuid(r),
{
    uuid::Uuid::new_v4().as_u128()
}

/// Relies on `uuid::Uuid::try_parse`: the UUID that the text holds, as its
/// 128 bits, or `None`; it depends on the text alone.
#[verifier::external_body]
fn parse_uuid(s: &str) -> (r: Option<u128>)
    ensures
        r == uuid_of_text(s@),
{
    match uuid::Uuid::try_parse(s) {
        Ok(id) => Some(id.as_u128()),
        Err(_) => None,
    }
}

/// Relies on `Display for uuid::Uuid`: the hyphenated text of the UUID.
#[verifier::external_body]
fn render_uuid(v: u128) -> (r: String)
    ensures
        r@ == uuid_text(v),
{
    uuid::Uuid::from_u128(v).to_string()
}

/// A unique identifier for a rolling stock: a UUID, held as its 128 bits.
#[derive(Debug, PartialEq, Eq, Structural, Copy, Clone, Hash)]
pub struct RollingStockId(u128);

impl RollingStockId {
    pub closed spec fn spec_value(self) -> u128 {
        self.0
    }

    /// A new random identifier: a version 4 UUID.
    pub fn new() -> (r: RollingStockId)
        ensures
            is_random_uuid(r.spec_value()),
    {
        RollingStockId(random_uuid())
    }

    /// The identifier with the given UUID bits.
    pub fn from_u128(value: u128) -> (r: RollingStockId)
        ensures
            r.spec_value() == value,
    {
        RollingStockId(value)
    }

    /// Reads a UUID written as text; fails where the text holds none.
    pub fn parse(s: &str) -> (r: Result<RollingStockId, &'static str>)
        ensures
            r is Ok <==> uuid_of_text(s@) is Some,
            r matches Ok(id) ==> uuid_of_text(s@) == Some(id.spec_value()),
            r matches Err(e) ==> e@ == "invalid rolling stock id"@,
    {
        match parse_uuid(s) {
            Some(v) => Ok(RollingStockId(v)),
            None => Err("invalid rolling stock id"),
        }
    }

    /// The UUID bits.
    pub fn value(&self) -> (r: u128)
        ensures
            r == self.spec_value(),
    {
        self.0
    }

    /// The hyphenated text of the UUID.
    pub fn to_string(&self) -> (r: String)
        ensures
            r@ == uuid_text(self.spec_value()),
    {
        render_uuid(self.0)
    }
}

impl std::str::FromStr for RollingStockId {
    type Err = &'static str;

    fn from_str(s: &str) -> Result<RollingStockId, &'static str> {
        RollingStockId::parse(s)
    }
}

} // verus!

use vstd::prelude::*;
use vstd::string::StringExecFns;

verus! {

/// The interface revision this metadata record declares.
pub fn metadata_spec_version() -> (r: String)
    ensures
        r@ == "ft-1.0.0"@,
{
    String::from_str("ft-1.0.0")
}

/// The immutable token description: set exactly once at construction and
/// never mutated afterwards.
pub struct Metadata {
    pub name: String,
    pub symbol: String,
    pub decimals: u8,
    pub spec_version: String,
    pub icon: Option<String>,
    pub reference: Option<String>,
    pub reference_hash: Option<Vec<u8>>,
}

impl Metadata {
    /// A record is valid when it declares the interface revision this
    /// library implements and carries a hash exactly when it carries a
    /// reference (a 32-byte digest of the referenced document).
    pub open spec fn valid(self) -> bool {
        &&& self.spec_version@ == "ft-1.0.0"@
        &&& (self.reference is Some <==> self.reference_hash is Some)
        &&& (self.reference_hash is Some ==> self.reference_hash.unwrap()@.len() == 32)
    }

    /// Builds the default record: the given name, symbol and precision, the
    /// current interface revision, and no icon or reference.
    pub fn new_default(name: String, symbol: String, decimals: u8) -> (m: Metadata)
        ensures
            m.valid(),
            m.name == name,
            m.symbol == symbol,
            m.decimals == decimals,
            m.icon is None,
            m.reference is None,
            m.reference_hash is None,
    {
        Metadata {
            name,
            symbol,
            decimals,
            spec_version: metadata_spec_version(),
            icon: Option::None,
            reference: Option::None,
            reference_hash: Option::None,
        }
    }
}

} // verus!

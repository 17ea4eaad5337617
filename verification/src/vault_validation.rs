//! A registry of the decimal precision of known assets.
use vstd::prelude::*;

use crate::keyed::StrMap;
use crate::text::{concat, decimal, to_string, u64_to_decimal};

verus! {

/// Why an asset's decimals were refused.
#[derive(Debug)]
pub enum VaultValidationError {
    UnknownDecimals(u32, String),
    DecimalMismatch { expected: u32, actual: u32 },
}

pub open spec fn validation_error_text(e: VaultValidationError) -> Seq<char> {
    match e {
        VaultValidationError::UnknownDecimals(d, a) =>
            "Asset decimals "@ + decimal(d as nat) + " not in registry for "@ + a@,
        VaultValidationError::DecimalMismatch { expected, actual } =>
            "Decimal mismatch: expected "@ + decimal(expected as nat) + ", got "@ + decimal(actual as nat),
    }
}

impl VaultValidationError {
    /// The error's message.
    pub fn message(&self) -> (s: String)
        ensures
            s@ == validation_error_text(*self),
    {
        match self {
            VaultValidationError::UnknownDecimals(d, a) => {
                let n = u64_to_decimal(*d as u64);
                let s1 = concat("Asset decimals ", n.as_str());
                let s2 = concat(s1.as_str(), " not in registry for ");
                concat(s2.as_str(), a.as_str())
            },
            VaultValidationError::DecimalMismatch { expected, actual } => {
                let e = u64_to_decimal(*expected as u64);
                let a = u64_to_decimal(*actual as u64);
                let s1 = concat("Decimal mismatch: expected ", e.as_str());
                let s2 = concat(s1.as_str(), ", got ");
                concat(s2.as_str(), a.as_str())
            },
        }
    }
}

/// The number of decimals each registered asset uses.
pub struct AssetDecimalRegistry {
    known_decimals: StrMap<u32>,
}

impl AssetDecimalRegistry {
    pub closed spec fn wf(&self) -> bool {
        self.known_decimals.wf()
    }

    /// The registered assets and their decimals.
    pub closed spec fn decimals(&self) -> Map<Seq<char>, u32> {
        self.known_decimals.map()
    }

    /// No asset registered.
    pub fn new() -> (r: Self)
        ensures
            r.wf(),
            r.decimals() == Map::<Seq<char>, u32>::empty(),
    {
        AssetDecimalRegistry { known_decimals: StrMap::new() }
    }

    /// Registers (or re-registers) an asset's decimals.
    pub fn register(&mut self, asset: &str, decimals: u32)
        requires
            old(self).wf(),
        ensures
            final(self).wf(),
            final(self).decimals() == old(self).decimals().insert(asset@, decimals),
    {
        self.known_decimals.insert(asset, decimals);
    }

    /// Accepts `decimals` exactly when the asset is registered with them.
    pub fn validate_asset(&self, asset: &str, decimals: u32) -> (r: Result<(), VaultValidationError>)
        requires
            self.wf(),
        ensures
            r is Ok <==> (self.decimals().dom().contains(asset@) && self.decimals()[asset@] == decimals),
            r matches Err(e) ==> if self.decimals().dom().contains(asset@) {
                e == VaultValidationError::DecimalMismatch { expected: self.decimals()[asset@], actual: decimals }
            } else {
                e matches VaultValidationError::UnknownDecimals(d, a) && d == decimals && a@ == asset@
            },
    {
        match self.known_decimals.get(asset) {
            Some(expected) => {
                if *expected == decimals {
                    Ok(())
                } else {
                    Err(VaultValidationError::DecimalMismatch { expected: *expected, actual: decimals })
                }
            },
            None => Err(VaultValidationError::UnknownDecimals(decimals, to_string(asset))),
        }
    }

    /// The asset's registered decimals.
    pub fn get_decimals(&self, asset: &str) -> (r: Option<u32>)
        requires
            self.wf(),
        ensures
            r == if self.decimals().dom().contains(asset@) {
                Some(self.decimals()[asset@])
            } else {
                None::<u32>
            },
    {
        match self.known_decimals.get(asset) {
            Some(d) => Some(*d),
            None => None,
        }
    }
}

/// Re-registering an asset replaces its decimals: validation then accepts
/// exactly the new value.
pub proof fn law_register_then_validate(m: Map<Seq<char>, u32>, asset: Seq<char>, d: u32, probe: u32)
    ensures
        ({
            let m2 = m.insert(asset, d);
            m2.dom().contains(asset) && (m2[asset] == probe <==> probe == d)
        }),
{
}

} // verus!

//! Barcode symbologies.

use vstd::prelude::*;

verus! {

/// The symbology of a barcode, by the number that the device gives it.
#[derive(Debug, Clone, Copy, Hash, PartialEq, Eq, Structural)]
pub struct CodeType {
    /// The number of the symbology.
    pub number: u16,
}

impl From<u16> for CodeType {
    fn from(value: u16) -> (result: Self) {
        CodeType { number: value }
    }
}

impl vstd::std_specs::convert::FromSpecImpl<u16> for CodeType {
    open spec fn obeys_from_spec() -> bool {
        true
    }

    open spec fn from_spec(value: u16) -> CodeType {
        CodeType { number: value }
    }
}

} // verus!

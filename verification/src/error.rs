use vstd::prelude::*;
use vstd::std_specs::convert::FromSpecImpl;

verus! {

/// A failure of the codec that turns typed values into raw values and back.
/// It is kept as it came and never looked into.
#[verifier::external_type_specification]
#[verifier::external_body]
pub struct ExCodecFailure(serde_wasm_bindgen::Error);

/// Why a write to the store, or a change of its schema, did not happen.
pub enum StoreError {
    /// The store refused or failed a request.
    Request(idb::Error),
    /// The codec could not encode the value to write.
    Codec(serde_wasm_bindgen::Error),
}

impl From<idb::Error> for StoreError {
    fn from(err: idb::Error) -> (error: Self) {
        StoreError::Request(err)
    }
}

impl FromSpecImpl<idb::Error> for StoreError {
    open spec fn obeys_from_spec() -> bool {
        true
    }

    open spec fn from_spec(err: idb::Error) -> Self {
        StoreError::Request(err)
    }
}

impl From<serde_wasm_bindgen::Error> for StoreError {
    fn from(err: serde_wasm_bindgen::Error) -> (error: Self) {
        StoreError::Codec(err)
    }
}

impl FromSpecImpl<serde_wasm_bindgen::Error> for StoreError {
    open spec fn obeys_from_spec() -> bool {
        true
    }

    open spec fn from_spec(err: serde_wasm_bindgen::Error) -> Self {
        StoreError::Codec(err)
    }
}

} // verus!

use vstd::prelude::*;
use crate::error::StoreError;

verus! {

/// A connection to a database of the store.
#[verifier::external_type_specification]
#[verifier::external_body]
pub struct ExDatabase(idb::Database);

/// A transaction on a database of the store.
#[verifier::external_type_specification]
#[verifier::external_body]
pub struct ExTransaction(idb::Transaction);

/// What a schema definition offers to whoever opens the store.
pub trait Schema {
    /// The highest version that this definition knows how to reach. The
    /// answer is meant to depend on nothing but the definition.
    fn latest_version() -> u32;

    /// Brings `database` up to the latest version, within `transaction` where
    /// one is given. A failure is handed back to the caller, who decides what
    /// becomes of opening the store.
    fn apply(&self, database: &idb::Database, transaction: Option<&idb::Transaction>) -> Result<
        (),
        StoreError,
    >;
}

} // verus!

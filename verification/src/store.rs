use vstd::prelude::*;

verus! {

/// A live cursor of the store: a position within a key range. Its contents are
/// never inspected here; a handle is only kept, handed out and taken back.
#[verifier::external_type_specification]
#[verifier::external_body]
pub struct ExCursorHandle(idb::Cursor);

/// A value in the store's native representation. It is carried from the read
/// to the codec and never looked into.
#[verifier::external_type_specification]
#[verifier::external_body]
pub struct ExRawValue(wasm_bindgen::JsValue);

/// A failure reported by the store. Only whether it ends the range is ever
/// asked of it, through `classify`.
#[verifier::external_type_specification]
#[verifier::external_body]
pub struct ExStoreFailure(idb::Error);

/// How a request to advance can fail, as far as a stream tells failures apart.
pub enum AdvanceFailure {
    /// The store reported that the cursor cannot be advanced: no further
    /// entries are in range.
    EndOfRange,
    /// Any other failure, with the store's own error.
    Store(idb::Error),
}

/// What one advancement hands back once it is over: the repositioned handle,
/// if the range goes on, together with the value that was read before the
/// advance was requested.
pub type Advanced = Result<(Option<idb::Cursor>, wasm_bindgen::JsValue), idb::Error>;

/// The outcome of an advancement, given the value read at the current position
/// and the store's classified answer to the advance request.
///
/// A repositioned handle is passed on with the value. The end of the range is
/// not a failure: the value read is still good and no handle is left. Any
/// other failure discards the value.
pub open spec fn settled(
    raw: wasm_bindgen::JsValue,
    advanced: Result<Option<idb::Cursor>, AdvanceFailure>,
) -> Advanced {
    match advanced {
        Ok(next) => Ok((next, raw)),
        Err(AdvanceFailure::EndOfRange) => Ok((None, raw)),
        Err(AdvanceFailure::Store(err)) => Err(err),
    }
}

/// Whether a store error is the store's report that the cursor cannot be
/// moved on: the end of the range. It is what `classify` finds in the error's
/// variant, and depends on the error alone.
pub uninterp spec fn ends_range(err: idb::Error) -> bool;

/// Sorts a store error by variant. `idb::Cursor::advance` wraps the store's
/// refusal to move in `idb::Error::CursorAdvanceFailed`; that variant is the
/// end of the range, every other one is kept as it is.
///
/// Trusted: the body is not verified. The contract claims that the end of the
/// range comes out exactly for the errors that `ends_range` names, and that
/// every other error is carried on unchanged.
#[verifier::external_body]
fn classify(err: idb::Error) -> (failure: AdvanceFailure)
    ensures
        ends_range(err) ==> failure is EndOfRange,
        !ends_range(err) ==> failure == AdvanceFailure::Store(err),
{
    match err {
        idb::Error::CursorAdvanceFailed(_) => AdvanceFailure::EndOfRange,
        other => AdvanceFailure::Store(other),
    }
}

/// The store's answer to an advance with its failure, if any, classified.
pub open spec fn classified(advanced: Result<Option<idb::Cursor>, idb::Error>) -> Result<
    Option<idb::Cursor>,
    AdvanceFailure,
> {
    match advanced {
        Ok(next) => Ok(next),
        Err(err) => Err(
            if ends_range(err) {
                AdvanceFailure::EndOfRange
            } else {
                AdvanceFailure::Store(err)
            },
        ),
    }
}

/// Settles an advancement whose failure, if any, has been classified.
pub fn settle_classified(
    raw: wasm_bindgen::JsValue,
    advanced: Result<Option<idb::Cursor>, AdvanceFailure>,
) -> (outcome: Advanced)
    ensures
        outcome == settled(raw, advanced),
{
    match advanced {
        Ok(next) => Ok((next, raw)),
        Err(AdvanceFailure::EndOfRange) => Ok((None, raw)),
        Err(AdvanceFailure::Store(err)) => Err(err),
    }
}

/// Settles an advancement from the store's own answer: the result of the
/// advance request, or of waiting for it.
///
/// An error that reports the end of the range ends the range and keeps the
/// value; every other error is handed back unchanged, and the value is
/// dropped.
pub fn settle(
    raw: wasm_bindgen::JsValue,
    advanced: Result<Option<idb::Cursor>, idb::Error>,
) -> (outcome: Advanced)
    ensures
        advanced matches Ok(next) ==> outcome == Ok::<_, idb::Error>((next, raw)),
        advanced matches Err(err) ==> (ends_range(err) ==> outcome == Ok::<_, idb::Error>(
            (None::<idb::Cursor>, raw),
        )) && (!ends_range(err) ==> outcome == Err::<
            (Option<idb::Cursor>, wasm_bindgen::JsValue),
            _,
        >(err)),
        outcome == settled(raw, classified(advanced)),
{
    match advanced {
        Ok(next) => settle_classified(raw, Ok(next)),
        Err(err) => {
            let failure = classify(err);
            settle_classified(raw, Err(failure))
        },
    }
}

} // verus!

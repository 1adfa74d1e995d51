//! Error kinds surfaced by the core, and conversion of platform
//! identifiers into the store's native integer width.

use vstd::prelude::*;

verus! {

/// Every operation of the core reports failure through one of these
/// kinds; the dispatcher that invoked the core owns all user-visible
/// messaging.
#[derive(Clone, Copy, Debug, PartialEq, Eq)]
pub enum Error {
    /// The interaction carried no guild identifier.
    MissingGuildContext,
    /// An identifier cannot be represented in the store's native
    /// integer width.
    ConversionError,
    /// A required configuration row does not exist.
    NotFound,
    /// A required input field was absent or empty.
    MissingRequiredInput,
    /// A star transfer would drive the balance negative.
    InsufficientBalance,
    /// The underlying store rejected the mutation.
    PersistenceFailure,
    /// The external messaging port rejected an operation.
    MessagingFailure,
}

/// The store keys its rows by signed 64-bit integers, while the chat
/// platform hands out unsigned 64-bit identifiers. True exactly when
/// the identifier survives that conversion.
pub open spec fn fits_store_id(id: u64) -> bool {
    id <= i64::MAX
}

/// Converts a platform identifier to a store key, reporting the
/// identifiers that do not fit.
pub fn to_store_id(id: u64) -> (r: Result<i64, Error>)
    ensures
        r is Ok <==> fits_store_id(id),
        r is Ok ==> r->Ok_0 == id as i64,
        r is Err ==> r->Err_0 == Error::ConversionError,
{
    if id <= i64::MAX as u64 {
        Ok(id as i64)
    } else {
        Err(Error::ConversionError)
    }
}

} // verus!

//! The one outside call the ledger makes: reading the wall clock for
//! the free-transfer timestamp.

use vstd::prelude::*;

verus! {

/// Relies on chrono::Utc::now: reads the system clock and returns it
/// as whole seconds since the Unix epoch. Nothing is promised of the
/// value — it depends on the clock alone — so callers state what holds
/// of their outcome for every reading.
#[verifier::external_body]
pub(crate) fn now_unix() -> i64 {
    chrono::Utc::now().timestamp()
}

} // verus!

//! Wall-clock access for the timestamps the store assigns at creation and
//! recording time.

use vstd::prelude::*;

verus! {

/// Relies on chrono::Utc::now, read as seconds since the Unix epoch. The
/// result depends on the machine's clock, so nothing is promised of it.
#[verifier::external_body]
pub(crate) fn now_timestamp() -> i64 {
    chrono::Utc::now().timestamp()
}

} // verus!

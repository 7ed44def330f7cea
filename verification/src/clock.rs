//! Reading the local wall clock through chrono.

use vstd::prelude::*;

verus! {

/// Reads the local wall clock once: `chrono::Local::now()`, then
/// `Timelike::minute` and `Timelike::second` on that same reading.
/// chrono documents the minute as a number from 0 to 59 and the second as a
/// number from 0 to 59; that range is all this contract claims, since the
/// reading itself depends on the system clock and time zone. The date-time
/// value stays inside: only its minute and second are handed out.
#[verifier::external_body]
pub(crate) fn local_minute_and_second() -> (ms: (u32, u32))
    ensures
        ms.0 < 60,
        ms.1 < 60,
{
    let now = chrono::Local::now();
    (chrono::Timelike::minute(&now), chrono::Timelike::second(&now))
}

} // verus!

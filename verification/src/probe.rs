use vstd::prelude::*;

use crate::errors::DriverError;

verus! {

/// The Version Prober's decision on a spawn outcome. The caller invokes the
/// installed executable with a version-query argument and reports whether
/// the spawn-and-wait itself succeeded; `spawn` is `Err` of the OS-level
/// message when it did not. A completed invocation is a success whatever its
/// exit status: an unexpected status is informational, not a failure.
pub fn probe_outcome(spawn: Result<(), String>) -> (r: Result<(), DriverError>)
    ensures
        spawn is Ok <==> r is Ok,
        spawn matches Err(d) ==> r == Err::<(), DriverError>(
            DriverError::ProcessError { detail: d },
        ),
{
    match spawn {
        Ok(_) => Ok(()),
        Err(detail) => Err(DriverError::ProcessError { detail }),
    }
}

} // verus!

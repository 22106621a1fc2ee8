//! The liveness probe's payload. The endpoint attests process liveness,
//! not upstream connectivity: its answer takes no input from relay or
//! firmware state, so nothing about them can change it.

use vstd::prelude::*;

verus! {

/// The fixed body the health endpoint serves.
pub fn health_payload() -> (r: &'static str)
    ensures
        r@ == "OK"@,
{
    "OK"
}

} // verus!

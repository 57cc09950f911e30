//! Zone-level operations: picking a zone id out of a zone listing.
//!
//! Fetching the listing itself is transport work left to the caller; the
//! selection rule — exactly the first match, or a failure when the lookup
//! matched nothing — is the logic kept here.

use vstd::prelude::*;

use crate::errors::ApiError;

pub mod dns;

verus! {

/// Picks the zone id a domain lookup resolved to: the first id of the
/// listing, or [`ApiError::InvalidOptions`] when the lookup matched no zone
/// where exactly one was required.
pub fn select_zone_id(ids: Vec<String>) -> (r: Result<String, ApiError>)
    ensures
        ids@.len() == 0 ==> (r matches Err(e) && e is InvalidOptions),
        ids@.len() > 0 ==> (r matches Ok(id) && id == ids@[0]),
{
    if ids.len() < 1 {
        return Err(ApiError::InvalidOptions);
    }
    let mut ids = ids;
    let first = ids.remove(0);
    Ok(first)
}

} // verus!

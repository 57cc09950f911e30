//! The account profile returned by the user endpoint.

use vstd::prelude::*;

verus! {

/// One user account as the service reports it.
#[derive(Debug)]
pub struct User {
    pub id: String,
    pub email: String,
    pub first_name: Option<String>,
    pub last_name: Option<String>,
    pub username: String,
    pub telephone: Option<String>,
    pub country: Option<String>,
    pub zipcode: Option<String>,
    pub created_on: String,
    pub modified_on: String,
    pub two_factor_authentication_enabled: bool,
    pub two_factor_authentication_locked: bool,
    pub organizations: Vec<String>,
    pub has_pro_zones: bool,
    pub has_business_zones: bool,
    pub has_enterprise_zones: bool,
}

} // verus!

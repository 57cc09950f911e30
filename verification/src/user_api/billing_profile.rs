//! The billing profile returned by the billing endpoint.

use vstd::prelude::*;

verus! {

/// One billing profile as the service reports it.
#[derive(Debug)]
pub struct BillingProfile {
    pub id: String,
    pub first_name: String,
    pub last_name: String,
    pub address: String,
    pub address2: String,
    pub company: String,
    pub city: String,
    pub state: String,
    pub zipcode: String,
    pub country: String,
    pub telephone: String,
    pub card_number: String,
    pub card_expiry_year: u32,
    pub card_expiry_month: u8,
    pub vat: String,
    pub edited_on: String,
    pub created_on: String,
}

} // verus!

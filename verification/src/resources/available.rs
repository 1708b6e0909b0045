//! What the API offers: rails, bank details, SWIFT codes.

use crate::client::{BlindPay, ClientView};
use crate::http::{HttpMethod, HttpRequest};
use crate::types::Rail;
use vstd::prelude::*;
use vstd::string::*;

verus! {

#[derive(Debug, Clone)]
pub struct BankDetail {
    pub label: String,
    pub regex: String,
    pub key: String,
    pub items: Option<Vec<BankDetailItem>>,
    pub required: bool,
}

#[derive(Debug, Clone)]
pub struct BankDetailItem {
    pub label: String,
    pub value: String,
    pub is_active: Option<bool>,
}

#[derive(Debug, Clone)]
pub struct RailInfo {
    pub label: String,
    pub value: Rail,
    pub country: String,
}

#[derive(Debug, Clone)]
pub struct SwiftCodeBankDetail {
    pub id: String,
    pub bank: String,
    pub city: String,
    pub branch: String,
    pub swift_code: String,
    pub swift_code_link: String,
    pub country: String,
    pub country_slug: String,
}

/// Operations that tell what the API offers.
pub struct AvailableResource {
    client: BlindPay,
}

impl View for AvailableResource {
    type V = ClientView;

    closed spec fn view(&self) -> ClientView {
        self.client@
    }
}

impl AvailableResource {
    /// A handle that works with the configuration of `client`.
    pub fn new(client: BlindPay) -> (resource: Self)
        ensures
            resource@ == client@,
    {
        Self { client }
    }

    /// The request that reads the bank details which a rail asks for.
    pub fn get_bank_details(&self, rail: Rail) -> (request: HttpRequest)
        ensures
            request@ == self@.request(
                HttpMethod::Get,
                "/available/bank-details?rail="@ + rail.wire(),
                None,
            ),
    {
        let path = String::from_str("/available/bank-details?rail=")
            .concat(rail.as_str());
        self.client.get(path.as_str())
    }

    /// The request that lists the rails.
    pub fn get_rails(&self) -> (request: HttpRequest)
        ensures
            request@ == self@.request(
                HttpMethod::Get,
                "/available/rails"@,
                None,
            ),
    {
        self.client.get("/available/rails")
    }

    /// The request that reads the bank behind a SWIFT code.
    pub fn get_swift_code_bank_details(&self, swift_code: &str) -> (request: HttpRequest)
        ensures
            request@ == self@.request(
                HttpMethod::Get,
                "/available/swift/"@ + swift_code@,
                None,
            ),
    {
        let path = String::from_str("/available/swift/")
            .concat(swift_code);
        self.client.get(path.as_str())
    }
}

} // verus!

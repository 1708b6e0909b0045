//! Partner fees.

use crate::client::{BlindPay, ClientView};
use crate::http::{HttpMethod, HttpRequest};
use crate::json::Json;
use vstd::prelude::*;
use vstd::string::*;

verus! {

/// Operations on partner fees. A fee holds amounts with a fractional part, so the body
/// of a new fee is taken as a document.
pub struct PartnerFeesResource {
    client: BlindPay,
}

impl View for PartnerFeesResource {
    type V = ClientView;

    closed spec fn view(&self) -> ClientView {
        self.client@
    }
}

impl PartnerFeesResource {
    /// A handle that works with the configuration of `client`.
    pub fn new(client: BlindPay) -> (resource: Self)
        ensures
            resource@ == client@,
    {
        Self { client }
    }

    /// The request that lists the partner fees.
    pub fn list(&self) -> (request: HttpRequest)
        ensures
            request@ == self@.request(
                HttpMethod::Get,
                "/instances/"@ + self@.instance_id + "/partner-fees"@,
                None,
            ),
    {
        let path = String::from_str("/instances/")
            .concat(self.client.instance_id())
            .concat("/partner-fees");
        self.client.get(path.as_str())
    }

    /// The request that creates a partner fee from its document.
    pub fn create(&self, input: Json) -> (request: HttpRequest)
        ensures
            request@ == self@.request(
                HttpMethod::Post,
                "/instances/"@ + self@.instance_id + "/partner-fees"@,
                Some(input@),
            ),
    {
        let path = String::from_str("/instances/")
            .concat(self.client.instance_id())
            .concat("/partner-fees");
        let body = input;
        self.client.post(path.as_str(), body)
    }

    /// The request that reads one partner fee.
    pub fn get(&self, id: &str) -> (request: HttpRequest)
        ensures
            request@ == self@.request(
                HttpMethod::Get,
                "/instances/"@ + self@.instance_id + "/partner-fees/"@ + id@,
                None,
            ),
    {
        let path = String::from_str("/instances/")
            .concat(self.client.instance_id())
            .concat("/partner-fees/")
            .concat(id);
        self.client.get(path.as_str())
    }

    /// The request that deletes one partner fee.
    pub fn delete(&self, id: &str) -> (request: HttpRequest)
        ensures
            request@ == self@.request(
                HttpMethod::Delete,
                "/instances/"@ + self@.instance_id + "/partner-fees/"@ + id@,
                None,
            ),
    {
        let path = String::from_str("/instances/")
            .concat(self.client.instance_id())
            .concat("/partner-fees/")
            .concat(id);
        self.client.delete(path.as_str())
    }
}

} // verus!

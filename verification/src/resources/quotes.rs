//! Quotes for payouts and for payins.

use crate::client::{BlindPay, ClientView};
use crate::http::{HttpMethod, HttpRequest};
use crate::json::Json;
use vstd::prelude::*;
use vstd::string::*;

verus! {

#[derive(Debug, Clone)]
pub struct NetworkInfo {
    pub name: String,
    pub chain_id: u64,
}

/// Operations on payout quotes. A quote holds amounts with a fractional part, so the
/// bodies are taken as documents.
pub struct QuotesResource {
    client: BlindPay,
}

impl View for QuotesResource {
    type V = ClientView;

    closed spec fn view(&self) -> ClientView {
        self.client@
    }
}

impl QuotesResource {
    /// A handle that works with the configuration of `client`.
    pub fn new(client: BlindPay) -> (resource: Self)
        ensures
            resource@ == client@,
    {
        Self { client }
    }

    /// The request that creates a quote from its document.
    pub fn create(&self, input: Json) -> (request: HttpRequest)
        ensures
            request@ == self@.request(
                HttpMethod::Post,
                "/instances/"@ + self@.instance_id + "/quotes"@,
                Some(input@),
            ),
    {
        let path = String::from_str("/instances/")
            .concat(self.client.instance_id())
            .concat("/quotes");
        let body = input;
        self.client.post(path.as_str(), body)
    }

    /// The request that asks for an exchange rate.
    pub fn get_fx_rate(&self, input: Json) -> (request: HttpRequest)
        ensures
            request@ == self@.request(
                HttpMethod::Post,
                "/instances/"@ + self@.instance_id + "/quotes/fx"@,
                Some(input@),
            ),
    {
        let path = String::from_str("/instances/")
            .concat(self.client.instance_id())
            .concat("/quotes/fx");
        let body = input;
        self.client.post(path.as_str(), body)
    }
}

/// Operations on payin quotes. The bodies are taken as documents.
pub struct PayinQuotesResource {
    client: BlindPay,
}

impl View for PayinQuotesResource {
    type V = ClientView;

    closed spec fn view(&self) -> ClientView {
        self.client@
    }
}

impl PayinQuotesResource {
    /// A handle that works with the configuration of `client`.
    pub fn new(client: BlindPay) -> (resource: Self)
        ensures
            resource@ == client@,
    {
        Self { client }
    }

    /// The request that creates a payin quote from its document.
    pub fn create(&self, input: Json) -> (request: HttpRequest)
        ensures
            request@ == self@.request(
                HttpMethod::Post,
                "/instances/"@ + self@.instance_id + "/payin-quotes"@,
                Some(input@),
            ),
    {
        let path = String::from_str("/instances/")
            .concat(self.client.instance_id())
            .concat("/payin-quotes");
        let body = input;
        self.client.post(path.as_str(), body)
    }

    /// The request that asks for a payin exchange rate.
    pub fn get_fx_rate(&self, input: Json) -> (request: HttpRequest)
        ensures
            request@ == self@.request(
                HttpMethod::Post,
                "/instances/"@ + self@.instance_id + "/payin-quotes/fx"@,
                Some(input@),
            ),
    {
        let path = String::from_str("/instances/")
            .concat(self.client.instance_id())
            .concat("/payin-quotes/fx");
        let body = input;
        self.client.post(path.as_str(), body)
    }
}

} // verus!

//! Payins.

use crate::client::{BlindPay, ClientView};
use crate::http::{HttpMethod, HttpRequest};
use crate::json::{Json, JsonView, MemberView, ObjectBuilder};
use crate::resources::quotes::PayinQuotesResource;
use crate::types::{PaginationParams, pagination_query, query_string};
use vstd::prelude::*;
use vstd::string::*;

verus! {

/// Operations on payins.
pub struct PayinsResource {
    client: BlindPay,
}

impl View for PayinsResource {
    type V = ClientView;

    closed spec fn view(&self) -> ClientView {
        self.client@
    }
}

impl PayinsResource {
    /// A handle that works with the configuration of `client`.
    pub fn new(client: BlindPay) -> (resource: Self)
        ensures
            resource@ == client@,
    {
        Self { client }
    }

    /// The request that lists the payins. Of the parameters only a limit and an offset that
    /// are present go into the query.
    pub fn list(&self, params: Option<PaginationParams>) -> (request: HttpRequest)
        ensures
            request@ == self@.request(
                HttpMethod::Get,
                "/instances/"@ + self@.instance_id + "/payins"@ + query_string(params),
                None,
            ),
    {
        let query = pagination_query(&params);
        let path = String::from_str("/instances/")
            .concat(self.client.instance_id())
            .concat("/payins")
            .concat(query.as_str());
        self.client.get(path.as_str())
    }

    /// The request that reads one payin.
    pub fn get(&self, payin_id: &str) -> (request: HttpRequest)
        ensures
            request@ == self@.request(
                HttpMethod::Get,
                "/instances/"@ + self@.instance_id + "/payins/"@ + payin_id@,
                None,
            ),
    {
        let path = String::from_str("/instances/")
            .concat(self.client.instance_id())
            .concat("/payins/")
            .concat(payin_id);
        self.client.get(path.as_str())
    }

    /// The request that tracks one payin.
    pub fn get_track(&self, payin_id: &str) -> (request: HttpRequest)
        ensures
            request@ == self@.request(
                HttpMethod::Get,
                "/e/payins/"@ + payin_id@,
                None,
            ),
    {
        let path = String::from_str("/e/payins/")
            .concat(payin_id);
        self.client.get(path.as_str())
    }

    /// The request that creates a payin on an EVM chain from a payin quote.
    pub fn create_evm(&self, payin_quote_id: &str) -> (request: HttpRequest)
        ensures
            request@ == self@.request(
                HttpMethod::Post,
                "/instances/"@ + self@.instance_id + "/payins/evm"@,
                Some(
                    JsonView::Object(
                        Seq::<MemberView>::empty()
                            .push(
                                MemberView {
                                    name: "payin_quote_id"@,
                                    value: JsonView::Str(payin_quote_id@),
                                },
                            ),
                    ),
                ),
            ),
    {
        let path = String::from_str("/instances/")
            .concat(self.client.instance_id())
            .concat("/payins/evm");
        let body = ObjectBuilder::new()
            .field("payin_quote_id", Json::string(payin_quote_id))
            .build();
        self.client.post(path.as_str(), body)
    }

    /// The operations on payin quotes.
    pub fn quotes(&self) -> (resource: PayinQuotesResource)
        ensures
            resource@ == self@,
    {
        PayinQuotesResource::new(self.client.clone())
    }
}

} // verus!

//! Terms of service.

use crate::client::{BlindPay, ClientView};
use crate::http::{HttpMethod, HttpRequest};
use crate::json::{Json, JsonView, MemberView, ObjectBuilder, ToJson};
use vstd::prelude::*;
use vstd::string::*;

verus! {

#[derive(Debug, Clone)]
pub struct InitiateInput {
    pub idempotency_key: String,
    pub receiver_id: Option<String>,
    pub redirect_url: Option<String>,
}

impl ToJson for InitiateInput {
    open spec fn json(&self) -> JsonView {
        JsonView::Object(
            Seq::<MemberView>::empty()
                .push(MemberView { name: "idempotency_key"@, value: self.idempotency_key.json() })
                .push(MemberView { name: "receiver_id"@, value: self.receiver_id.json() })
                .push(MemberView { name: "redirect_url"@, value: self.redirect_url.json() })
        )
    }

    fn to_json(&self) -> (doc: Json) {
        ObjectBuilder::new()
            .field("idempotency_key", self.idempotency_key.to_json())
            .field("receiver_id", self.receiver_id.to_json())
            .field("redirect_url", self.redirect_url.to_json())
            .build()
    }
}

#[derive(Debug, Clone)]
pub struct InitiateResponse {
    pub url: String,
}

/// Operations on the terms of service.
pub struct TermsOfServiceResource {
    client: BlindPay,
}

impl View for TermsOfServiceResource {
    type V = ClientView;

    closed spec fn view(&self) -> ClientView {
        self.client@
    }
}

impl TermsOfServiceResource {
    /// A handle that works with the configuration of `client`.
    pub fn new(client: BlindPay) -> (resource: Self)
        ensures
            resource@ == client@,
    {
        Self { client }
    }

    /// The request that starts the acceptance of the terms of service.
    pub fn initiate(&self, input: InitiateInput) -> (request: HttpRequest)
        ensures
            request@ == self@.request(
                HttpMethod::Post,
                "/e/instances/"@ + self@.instance_id + "/tos"@,
                Some(input.json()),
            ),
    {
        let path = String::from_str("/e/instances/")
            .concat(self.client.instance_id())
            .concat("/tos");
        let body = input.to_json();
        self.client.post(path.as_str(), body)
    }
}

} // verus!

//! Webhook endpoints.

use crate::client::{BlindPay, ClientView};
use crate::http::{HttpMethod, HttpRequest};
use crate::json::{Json, JsonView, MemberView, ObjectBuilder, ToJson};
use vstd::prelude::*;
use vstd::string::*;

verus! {

#[derive(Debug, Clone, Copy, PartialEq, Eq)]
pub enum WebhookEvent {
    ReceiverNew,
    ReceiverUpdate,
    BankAccountNew,
    PayoutNew,
    PayoutUpdate,
    PayoutComplete,
    PayoutPartnerFee,
    BlockchainWalletNew,
    PayinNew,
    PayinUpdate,
    PayinComplete,
    PayinPartnerFee,
    TosAccept,
}

impl WebhookEvent {
    /// The name of the variant on the wire.
    pub open spec fn wire(self) -> Seq<char> {
        match self {
            WebhookEvent::ReceiverNew => "receiver.new"@,
            WebhookEvent::ReceiverUpdate => "receiver.update"@,
            WebhookEvent::BankAccountNew => "bankAccount.new"@,
            WebhookEvent::PayoutNew => "payout.new"@,
            WebhookEvent::PayoutUpdate => "payout.update"@,
            WebhookEvent::PayoutComplete => "payout.complete"@,
            WebhookEvent::PayoutPartnerFee => "payout.partnerFee"@,
            WebhookEvent::BlockchainWalletNew => "blockchainWallet.new"@,
            WebhookEvent::PayinNew => "payin.new"@,
            WebhookEvent::PayinUpdate => "payin.update"@,
            WebhookEvent::PayinComplete => "payin.complete"@,
            WebhookEvent::PayinPartnerFee => "payin.partnerFee"@,
            WebhookEvent::TosAccept => "tos.accept"@,
        }
    }

    /// The name of the variant on the wire.
    pub fn as_str(&self) -> (name: &'static str)
        ensures
            name@ == self.wire(),
    {
        match self {
            WebhookEvent::ReceiverNew => "receiver.new",
            WebhookEvent::ReceiverUpdate => "receiver.update",
            WebhookEvent::BankAccountNew => "bankAccount.new",
            WebhookEvent::PayoutNew => "payout.new",
            WebhookEvent::PayoutUpdate => "payout.update",
            WebhookEvent::PayoutComplete => "payout.complete",
            WebhookEvent::PayoutPartnerFee => "payout.partnerFee",
            WebhookEvent::BlockchainWalletNew => "blockchainWallet.new",
            WebhookEvent::PayinNew => "payin.new",
            WebhookEvent::PayinUpdate => "payin.update",
            WebhookEvent::PayinComplete => "payin.complete",
            WebhookEvent::PayinPartnerFee => "payin.partnerFee",
            WebhookEvent::TosAccept => "tos.accept",
        }
    }
}

impl ToJson for WebhookEvent {
    open spec fn json(&self) -> JsonView {
        JsonView::Str(self.wire())
    }

    fn to_json(&self) -> (doc: Json) {
        Json::string(self.as_str())
    }
}

#[derive(Debug, Clone)]
pub struct WebhookEndpoint {
    pub id: String,
    pub url: String,
    pub events: Vec<WebhookEvent>,
    pub last_event_at: String,
    pub instance_id: String,
    pub created_at: String,
    pub updated_at: String,
}

#[derive(Debug, Clone)]
pub struct CreateWebhookEndpointInput {
    pub url: String,
    pub events: Vec<WebhookEvent>,
}

impl ToJson for CreateWebhookEndpointInput {
    open spec fn json(&self) -> JsonView {
        JsonView::Object(
            Seq::<MemberView>::empty()
                .push(MemberView { name: "url"@, value: self.url.json() })
                .push(MemberView { name: "events"@, value: self.events.json() })
        )
    }

    fn to_json(&self) -> (doc: Json) {
        ObjectBuilder::new()
            .field("url", self.url.to_json())
            .field("events", self.events.to_json())
            .build()
    }
}

#[derive(Debug, Clone)]
pub struct CreateWebhookEndpointResponse {
    pub id: String,
}

#[derive(Debug, Clone)]
pub struct GetWebhookEndpointSecretResponse {
    pub key: String,
}

#[derive(Debug, Clone)]
pub struct GetPortalAccessUrlResponse {
    pub url: String,
}

/// Operations on the webhook endpoints of the instance.
pub struct WebhookEndpointsResource {
    client: BlindPay,
}

impl View for WebhookEndpointsResource {
    type V = ClientView;

    closed spec fn view(&self) -> ClientView {
        self.client@
    }
}

impl WebhookEndpointsResource {
    /// A handle that works with the configuration of `client`.
    pub fn new(client: BlindPay) -> (resource: Self)
        ensures
            resource@ == client@,
    {
        Self { client }
    }

    /// The request that lists the webhook endpoints.
    pub fn list(&self) -> (request: HttpRequest)
        ensures
            request@ == self@.request(
                HttpMethod::Get,
                "/instances/"@ + self@.instance_id + "/webhook-endpoints"@,
                None,
            ),
    {
        let path = String::from_str("/instances/")
            .concat(self.client.instance_id())
            .concat("/webhook-endpoints");
        self.client.get(path.as_str())
    }

    /// The request that creates a webhook endpoint.
    pub fn create(&self, input: CreateWebhookEndpointInput) -> (request: HttpRequest)
        ensures
            request@ == self@.request(
                HttpMethod::Post,
                "/instances/"@ + self@.instance_id + "/webhook-endpoints"@,
                Some(input.json()),
            ),
    {
        let path = String::from_str("/instances/")
            .concat(self.client.instance_id())
            .concat("/webhook-endpoints");
        let body = input.to_json();
        self.client.post(path.as_str(), body)
    }

    /// The request that deletes one webhook endpoint.
    pub fn delete(&self, id: &str) -> (request: HttpRequest)
        ensures
            request@ == self@.request(
                HttpMethod::Delete,
                "/instances/"@ + self@.instance_id + "/webhook-endpoints/"@ + id@,
                None,
            ),
    {
        let path = String::from_str("/instances/")
            .concat(self.client.instance_id())
            .concat("/webhook-endpoints/")
            .concat(id);
        self.client.delete(path.as_str())
    }

    /// The request that reads the secret of one webhook endpoint.
    pub fn get_secret(&self, id: &str) -> (request: HttpRequest)
        ensures
            request@ == self@.request(
                HttpMethod::Get,
                "/instances/"@ + self@.instance_id + "/webhook-endpoints/"@ + id@ + "/secret"@,
                None,
            ),
    {
        let path = String::from_str("/instances/")
            .concat(self.client.instance_id())
            .concat("/webhook-endpoints/")
            .concat(id)
            .concat("/secret");
        self.client.get(path.as_str())
    }

    /// The request that reads the address of the webhook portal.
    pub fn get_portal_access_url(&self) -> (request: HttpRequest)
        ensures
            request@ == self@.request(
                HttpMethod::Get,
                "/instances/"@ + self@.instance_id + "/webhook-endpoints/portal-access"@,
                None,
            ),
    {
        let path = String::from_str("/instances/")
            .concat(self.client.instance_id())
            .concat("/webhook-endpoints/portal-access");
        self.client.get(path.as_str())
    }
}

} // verus!

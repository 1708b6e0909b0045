//! API keys.

use crate::client::{BlindPay, ClientView};
use crate::http::{HttpMethod, HttpRequest};
use crate::json::{Json, JsonView, MemberView, ObjectBuilder, ToJson};
use vstd::prelude::*;
use vstd::string::*;

verus! {

#[derive(Debug, Clone, Copy, PartialEq, Eq)]
pub enum ApiKeyPermission {
    FullAccess,
}

impl ApiKeyPermission {
    /// The name of the variant on the wire.
    pub open spec fn wire(self) -> Seq<char> {
        match self {
            ApiKeyPermission::FullAccess => "full_access"@,
        }
    }

    /// The name of the variant on the wire.
    pub fn as_str(&self) -> (name: &'static str)
        ensures
            name@ == self.wire(),
    {
        match self {
            ApiKeyPermission::FullAccess => "full_access",
        }
    }
}

impl ToJson for ApiKeyPermission {
    open spec fn json(&self) -> JsonView {
        JsonView::Str(self.wire())
    }

    fn to_json(&self) -> (doc: Json) {
        Json::string(self.as_str())
    }
}

#[derive(Debug, Clone)]
pub struct ApiKey {
    pub id: String,
    pub name: String,
    pub permission: ApiKeyPermission,
    pub token: String,
    pub ip_whitelist: Option<Vec<String>>,
    pub unkey_id: String,
    pub last_used_at: Option<String>,
    pub instance_id: String,
    pub created_at: String,
    pub updated_at: String,
}

#[derive(Debug, Clone)]
pub struct CreateApiKeyInput {
    pub name: String,
    pub permission: ApiKeyPermission,
    pub ip_whitelist: Option<Vec<String>>,
}

impl ToJson for CreateApiKeyInput {
    open spec fn json(&self) -> JsonView {
        JsonView::Object(
            Seq::<MemberView>::empty()
                .push(MemberView { name: "name"@, value: self.name.json() })
                .push(MemberView { name: "permission"@, value: self.permission.json() })
                .push(MemberView { name: "ip_whitelist"@, value: self.ip_whitelist.json() })
        )
    }

    fn to_json(&self) -> (doc: Json) {
        ObjectBuilder::new()
            .field("name", self.name.to_json())
            .field("permission", self.permission.to_json())
            .field("ip_whitelist", self.ip_whitelist.to_json())
            .build()
    }
}

#[derive(Debug, Clone)]
pub struct CreateApiKeyResponse {
    pub id: String,
    pub token: String,
}

/// Operations on the API keys of the instance.
pub struct ApiKeysResource {
    client: BlindPay,
}

impl View for ApiKeysResource {
    type V = ClientView;

    closed spec fn view(&self) -> ClientView {
        self.client@
    }
}

impl ApiKeysResource {
    /// A handle that works with the configuration of `client`.
    pub fn new(client: BlindPay) -> (resource: Self)
        ensures
            resource@ == client@,
    {
        Self { client }
    }

    /// The request that lists the API keys.
    pub fn list(&self) -> (request: HttpRequest)
        ensures
            request@ == self@.request(
                HttpMethod::Get,
                "/instances/"@ + self@.instance_id + "/api-keys"@,
                None,
            ),
    {
        let path = String::from_str("/instances/")
            .concat(self.client.instance_id())
            .concat("/api-keys");
        self.client.get(path.as_str())
    }

    /// The request that creates an API key.
    pub fn create(&self, input: CreateApiKeyInput) -> (request: HttpRequest)
        ensures
            request@ == self@.request(
                HttpMethod::Post,
                "/instances/"@ + self@.instance_id + "/api-keys"@,
                Some(input.json()),
            ),
    {
        let path = String::from_str("/instances/")
            .concat(self.client.instance_id())
            .concat("/api-keys");
        let body = input.to_json();
        self.client.post(path.as_str(), body)
    }

    /// The request that reads one API key.
    pub fn get(&self, id: &str) -> (request: HttpRequest)
        ensures
            request@ == self@.request(
                HttpMethod::Get,
                "/instances/"@ + self@.instance_id + "/api-keys/"@ + id@,
                None,
            ),
    {
        let path = String::from_str("/instances/")
            .concat(self.client.instance_id())
            .concat("/api-keys/")
            .concat(id);
        self.client.get(path.as_str())
    }

    /// The request that deletes one API key.
    pub fn delete(&self, id: &str) -> (request: HttpRequest)
        ensures
            request@ == self@.request(
                HttpMethod::Delete,
                "/instances/"@ + self@.instance_id + "/api-keys/"@ + id@,
                None,
            ),
    {
        let path = String::from_str("/instances/")
            .concat(self.client.instance_id())
            .concat("/api-keys/")
            .concat(id);
        self.client.delete(path.as_str())
    }
}

} // verus!

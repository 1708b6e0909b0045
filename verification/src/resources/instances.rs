//! The instance and its members.

use crate::client::{BlindPay, ClientView};
use crate::http::{HttpMethod, HttpRequest};
use crate::json::{Json, JsonView, MemberView, ObjectBuilder, ToJson};
use crate::resources::api_keys::ApiKeysResource;
use crate::resources::terms_of_service::TermsOfServiceResource;
use crate::resources::webhooks::WebhookEndpointsResource;
use vstd::prelude::*;
use vstd::string::*;

verus! {

#[derive(Debug, Clone, Copy, PartialEq, Eq)]
pub enum InstanceMemberRole {
    Owner,
    Admin,
    Finance,
    Checker,
    Operations,
    Developer,
    Viewer,
}

impl InstanceMemberRole {
    /// The name of the variant on the wire.
    pub open spec fn wire(self) -> Seq<char> {
        match self {
            InstanceMemberRole::Owner => "owner"@,
            InstanceMemberRole::Admin => "admin"@,
            InstanceMemberRole::Finance => "finance"@,
            InstanceMemberRole::Checker => "checker"@,
            InstanceMemberRole::Operations => "operations"@,
            InstanceMemberRole::Developer => "developer"@,
            InstanceMemberRole::Viewer => "viewer"@,
        }
    }

    /// The name of the variant on the wire.
    pub fn as_str(&self) -> (name: &'static str)
        ensures
            name@ == self.wire(),
    {
        match self {
            InstanceMemberRole::Owner => "owner",
            InstanceMemberRole::Admin => "admin",
            InstanceMemberRole::Finance => "finance",
            InstanceMemberRole::Checker => "checker",
            InstanceMemberRole::Operations => "operations",
            InstanceMemberRole::Developer => "developer",
            InstanceMemberRole::Viewer => "viewer",
        }
    }
}

impl ToJson for InstanceMemberRole {
    open spec fn json(&self) -> JsonView {
        JsonView::Str(self.wire())
    }

    fn to_json(&self) -> (doc: Json) {
        Json::string(self.as_str())
    }
}

#[derive(Debug, Clone)]
pub struct InstanceMember {
    pub id: String,
    pub email: String,
    pub first_name: String,
    pub middle_name: String,
    pub last_name: String,
    pub image_url: String,
    pub created_at: String,
    pub role: InstanceMemberRole,
}

#[derive(Debug, Clone)]
pub struct UpdateInstanceInput {
    pub name: String,
    pub receiver_invite_redirect_url: Option<String>,
}

impl ToJson for UpdateInstanceInput {
    open spec fn json(&self) -> JsonView {
        JsonView::Object(
            Seq::<MemberView>::empty()
                .push(MemberView { name: "name"@, value: self.name.json() })
                .push(
                    MemberView {
                        name: "receiver_invite_redirect_url"@,
                        value: self.receiver_invite_redirect_url.json(),
                    },
                )
        )
    }

    fn to_json(&self) -> (doc: Json) {
        ObjectBuilder::new()
            .field("name", self.name.to_json())
            .field("receiver_invite_redirect_url", self.receiver_invite_redirect_url.to_json())
            .build()
    }
}

#[derive(Debug, Clone)]
pub struct UpdateInstanceMemberRoleInput {
    pub member_id: String,
    pub role: InstanceMemberRole,
}

/// Operations on the instance and its members.
pub struct InstancesResource {
    client: BlindPay,
}

impl View for InstancesResource {
    type V = ClientView;

    closed spec fn view(&self) -> ClientView {
        self.client@
    }
}

impl InstancesResource {
    /// A handle that works with the configuration of `client`.
    pub fn new(client: BlindPay) -> (resource: Self)
        ensures
            resource@ == client@,
    {
        Self { client }
    }

    /// The request that lists the members of the instance.
    pub fn get_members(&self) -> (request: HttpRequest)
        ensures
            request@ == self@.request(
                HttpMethod::Get,
                "/instances/"@ + self@.instance_id + "/members"@,
                None,
            ),
    {
        let path = String::from_str("/instances/")
            .concat(self.client.instance_id())
            .concat("/members");
        self.client.get(path.as_str())
    }

    /// The request that updates the instance.
    pub fn update(&self, input: UpdateInstanceInput) -> (request: HttpRequest)
        ensures
            request@ == self@.request(
                HttpMethod::Put,
                "/instances/"@ + self@.instance_id,
                Some(input.json()),
            ),
    {
        let path = String::from_str("/instances/")
            .concat(self.client.instance_id());
        let body = input.to_json();
        self.client.put(path.as_str(), body)
    }

    /// The request that deletes the instance.
    pub fn delete(&self) -> (request: HttpRequest)
        ensures
            request@ == self@.request(
                HttpMethod::Delete,
                "/instances/"@ + self@.instance_id,
                None,
            ),
    {
        let path = String::from_str("/instances/")
            .concat(self.client.instance_id());
        self.client.delete(path.as_str())
    }

    /// The request that removes a member from the instance.
    pub fn delete_member(&self, member_id: &str) -> (request: HttpRequest)
        ensures
            request@ == self@.request(
                HttpMethod::Delete,
                "/instances/"@ + self@.instance_id + "/members/"@ + member_id@,
                None,
            ),
    {
        let path = String::from_str("/instances/")
            .concat(self.client.instance_id())
            .concat("/members/")
            .concat(member_id);
        self.client.delete(path.as_str())
    }

    /// The request that gives a member another role. The body holds the role alone.
    pub fn update_member_role(&self, input: UpdateInstanceMemberRoleInput) -> (request: HttpRequest)
        ensures
            request@ == self@.request(
                HttpMethod::Put,
                "/instances/"@ + self@.instance_id + "/members/"@ + input.member_id@,
                Some(
                    JsonView::Object(
                        Seq::<MemberView>::empty()
                            .push(MemberView { name: "role"@, value: input.role.json() }),
                    ),
                ),
            ),
    {
        let path = String::from_str("/instances/")
            .concat(self.client.instance_id())
            .concat("/members/")
            .concat(input.member_id.as_str());
        let body = ObjectBuilder::new()
            .field("role", input.role.to_json())
            .build();
        self.client.put(path.as_str(), body)
    }

    /// The operations on the API keys of the instance.
    pub fn api_keys(&self) -> (resource: ApiKeysResource)
        ensures
            resource@ == self@,
    {
        ApiKeysResource::new(self.client.clone())
    }

    /// The operations on the webhook endpoints of the instance.
    pub fn webhook_endpoints(&self) -> (resource: WebhookEndpointsResource)
        ensures
            resource@ == self@,
    {
        WebhookEndpointsResource::new(self.client.clone())
    }

    /// The operations on the terms of service.
    pub fn tos(&self) -> (resource: TermsOfServiceResource)
        ensures
            resource@ == self@,
    {
        TermsOfServiceResource::new(self.client.clone())
    }
}

} // verus!

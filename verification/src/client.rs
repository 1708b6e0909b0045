//! The root client: the configuration that every operation shares, and the requests
//! built from it.

use crate::error::{BlindPayError, ErrorView};
use crate::http::{Header, HttpMethod, HttpRequest, HttpRequestView};
use crate::json::{Json, JsonView};
use crate::resources::available::AvailableResource;
use crate::resources::instances::InstancesResource;
use crate::resources::partner_fees::PartnerFeesResource;
use crate::resources::payins::PayinsResource;
use crate::resources::payouts::PayoutsResource;
use crate::resources::quotes::QuotesResource;
use crate::resources::receivers::ReceiversResource;
use crate::resources::virtual_accounts::VirtualAccountsResource;
use crate::resources::wallets::WalletsResources;
use vstd::prelude::*;
use vstd::string::*;

verus! {

/// The endpoint that every path is appended to.
pub const BASE_URL: &'static str = "https://api.blindpay.com/v1";

/// The version that the client signs its requests with.
pub const VERSION: &'static str = "0.1.0";

/// The configuration of a client: the API key, the instance id and the base URL.
pub struct BlindPay {
    api_key: String,
    instance_id: String,
    base_url: String,
}

/// The mathematical value of a [`BlindPay`] client.
pub struct ClientView {
    pub api_key: Seq<char>,
    pub instance_id: Seq<char>,
    pub base_url: Seq<char>,
}

impl ClientView {
    /// The headers that every request carries.
    pub open spec fn headers(self) -> Seq<(Seq<char>, Seq<char>)> {
        seq![
            ("Content-Type"@, "application/json"@),
            ("Accept"@, "application/json"@),
            ("Authorization"@, "Bearer "@ + self.api_key),
            ("User-Agent"@, "blindpay-rust/"@ + VERSION@),
        ]
    }

    /// The request for one operation: the base URL followed by the path, the fixed
    /// headers, and the body where there is one.
    pub open spec fn request(
        self,
        method: HttpMethod,
        path: Seq<char>,
        body: Option<JsonView>,
    ) -> HttpRequestView {
        HttpRequestView { method, url: self.base_url + path, headers: self.headers(), body }
    }

    /// Whether the configuration is complete: neither the key nor the instance id is
    /// empty.
    pub open spec fn complete(self) -> bool {
        self.api_key.len() > 0 && self.instance_id.len() > 0
    }
}

impl View for BlindPay {
    type V = ClientView;

    closed spec fn view(&self) -> ClientView {
        ClientView {
            api_key: self.api_key@,
            instance_id: self.instance_id@,
            base_url: self.base_url@,
        }
    }
}

impl Clone for BlindPay {
    fn clone(&self) -> (copy: Self)
        ensures
            copy@ == self@,
    {
        proof {
            use_type_invariant(self);
        }
        BlindPay {
            api_key: self.api_key.clone(),
            instance_id: self.instance_id.clone(),
            base_url: self.base_url.clone(),
        }
    }
}

impl BlindPay {
    #[verifier::type_invariant]
    spec fn configured(&self) -> bool {
        self.api_key@.len() > 0 && self.instance_id@.len() > 0
    }

    /// Creates a client from an API key and an instance id. An empty key is refused
    /// first, then an empty instance id; every other pair gives a client.
    pub fn new(api_key: &str, instance_id: &str) -> (outcome: Result<BlindPay, BlindPayError>)
        ensures
            match outcome {
                Ok(client) => {
                    &&& api_key@.len() > 0
                    &&& instance_id@.len() > 0
                    &&& client@ == (ClientView {
                        api_key: api_key@,
                        instance_id: instance_id@,
                        base_url: BASE_URL@,
                    })
                },
                Err(error) => {
                    &&& error@ == if api_key@.len() == 0 {
                        ErrorView::MissingApiKey
                    } else {
                        ErrorView::MissingInstanceId
                    }
                    &&& api_key@.len() == 0 || instance_id@.len() == 0
                },
            },
    {
        if api_key.is_empty() {
            return Err(BlindPayError::MissingApiKey);
        }
        if instance_id.is_empty() {
            return Err(BlindPayError::MissingInstanceId);
        }
        Ok(
            BlindPay {
                api_key: String::from_str(api_key),
                instance_id: String::from_str(instance_id),
                base_url: String::from_str(BASE_URL),
            },
        )
    }

    /// The operations on what the API offers, with this client's configuration.
    pub fn available(&self) -> (resource: AvailableResource)
        ensures
            resource@ == self@,
    {
        AvailableResource::new(self.clone())
    }

    /// The operations on the instance and its members, with this client's configuration.
    pub fn instances(&self) -> (resource: InstancesResource)
        ensures
            resource@ == self@,
    {
        InstancesResource::new(self.clone())
    }

    /// The operations on partner fees, with this client's configuration.
    pub fn partner_fees(&self) -> (resource: PartnerFeesResource)
        ensures
            resource@ == self@,
    {
        PartnerFeesResource::new(self.clone())
    }

    /// The operations on payins, with this client's configuration.
    pub fn payins(&self) -> (resource: PayinsResource)
        ensures
            resource@ == self@,
    {
        PayinsResource::new(self.clone())
    }

    /// The operations on payouts, with this client's configuration.
    pub fn payouts(&self) -> (resource: PayoutsResource)
        ensures
            resource@ == self@,
    {
        PayoutsResource::new(self.clone())
    }

    /// The operations on quotes, with this client's configuration.
    pub fn quotes(&self) -> (resource: QuotesResource)
        ensures
            resource@ == self@,
    {
        QuotesResource::new(self.clone())
    }

    /// The operations on receivers, with this client's configuration.
    pub fn receivers(&self) -> (resource: ReceiversResource)
        ensures
            resource@ == self@,
    {
        ReceiversResource::new(self.clone())
    }

    /// The operations on virtual accounts, with this client's configuration.
    pub fn virtual_accounts(&self) -> (resource: VirtualAccountsResource)
        ensures
            resource@ == self@,
    {
        VirtualAccountsResource::new(self.clone())
    }

    /// The operations on wallets, with this client's configuration.
    pub fn wallets(&self) -> (resource: WalletsResources)
        ensures
            resource@ == self@,
    {
        WalletsResources::new(self.clone())
    }

    /// The instance id that scopes the client's paths. It is never empty.
    pub fn instance_id(&self) -> (id: &str)
        ensures
            id@ == self@.instance_id,
            self@.complete(),
    {
        proof {
            use_type_invariant(self);
        }
        self.instance_id.as_str()
    }

    fn request(&self, method: HttpMethod, path: &str, body: Option<Json>) -> (request: HttpRequest)
        ensures
            request@ == self@.request(
                method,
                path@,
                match body {
                    Some(doc) => Some(doc@),
                    None => None,
                },
            ),
    {
        let url = self.base_url.clone().concat(path);
        let mut headers: Vec<Header> = Vec::new();
        headers.push(
            Header {
                name: String::from_str("Content-Type"),
                value: String::from_str("application/json"),
            },
        );
        headers.push(
            Header {
                name: String::from_str("Accept"),
                value: String::from_str("application/json"),
            },
        );
        headers.push(
            Header {
                name: String::from_str("Authorization"),
                value: String::from_str("Bearer ").concat(self.api_key.as_str()),
            },
        );
        headers.push(
            Header {
                name: String::from_str("User-Agent"),
                value: String::from_str("blindpay-rust/").concat(VERSION),
            },
        );
        let request = HttpRequest { method, url, headers, body };
        assert(request@.headers =~= self@.headers());
        request
    }

    /// The request that reads `path`. It carries no body.
    pub fn get(&self, path: &str) -> (request: HttpRequest)
        ensures
            request@ == self@.request(HttpMethod::Get, path@, None),
    {
        self.request(HttpMethod::Get, path, None)
    }

    /// The request that posts `body` to `path`.
    pub fn post(&self, path: &str, body: Json) -> (request: HttpRequest)
        ensures
            request@ == self@.request(HttpMethod::Post, path@, Some(body@)),
    {
        self.request(HttpMethod::Post, path, Some(body))
    }

    /// The request that puts `body` at `path`.
    pub fn put(&self, path: &str, body: Json) -> (request: HttpRequest)
        ensures
            request@ == self@.request(HttpMethod::Put, path@, Some(body@)),
    {
        self.request(HttpMethod::Put, path, Some(body))
    }

    /// The request that patches `path` with `body`.
    pub fn patch(&self, path: &str, body: Json) -> (request: HttpRequest)
        ensures
            request@ == self@.request(HttpMethod::Patch, path@, Some(body@)),
    {
        self.request(HttpMethod::Patch, path, Some(body))
    }

    /// The request that deletes `path`. It carries no body.
    pub fn delete(&self, path: &str) -> (request: HttpRequest)
        ensures
            request@ == self@.request(HttpMethod::Delete, path@, None),
    {
        self.request(HttpMethod::Delete, path, None)
    }
}

} // verus!

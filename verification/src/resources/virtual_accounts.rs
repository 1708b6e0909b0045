//! Virtual accounts.

use crate::client::{BlindPay, ClientView};
use crate::http::{HttpMethod, HttpRequest};
use crate::json::{Json, JsonView, MemberView, ObjectBuilder, ToJson};
use crate::types::{Network, StablecoinToken};
use vstd::prelude::*;
use vstd::string::*;

verus! {

#[derive(Debug, Clone, Copy, PartialEq, Eq)]
pub enum BankingPartner {
    Jpmorgan,
    Citi,
}

impl BankingPartner {
    /// The name of the variant on the wire.
    pub open spec fn wire(self) -> Seq<char> {
        match self {
            BankingPartner::Jpmorgan => "jpmorgan"@,
            BankingPartner::Citi => "citi"@,
        }
    }

    /// The name of the variant on the wire.
    pub fn as_str(&self) -> (name: &'static str)
        ensures
            name@ == self.wire(),
    {
        match self {
            BankingPartner::Jpmorgan => "jpmorgan",
            BankingPartner::Citi => "citi",
        }
    }
}

impl ToJson for BankingPartner {
    open spec fn json(&self) -> JsonView {
        JsonView::Str(self.wire())
    }

    fn to_json(&self) -> (doc: Json) {
        Json::string(self.as_str())
    }
}

#[derive(Debug, Clone)]
pub struct BankingDetails {
    pub routing_number: String,
    pub account_number: String,
}

#[derive(Debug, Clone)]
pub struct UsBankingInfo {
    pub ach: BankingDetails,
    pub wire: BankingDetails,
    pub rtp: BankingDetails,
    pub swift_bic_code: String,
    pub account_type: String,
    pub beneficiary: BeneficiaryInfo,
    pub receiving_bank: BankInfo,
}

#[derive(Debug, Clone)]
pub struct BeneficiaryInfo {
    pub name: String,
    pub address_line_1: String,
    pub address_line_2: String,
}

#[derive(Debug, Clone)]
pub struct BankInfo {
    pub name: String,
    pub address_line_1: String,
    pub address_line_2: String,
}

#[derive(Debug, Clone)]
pub struct BlockchainWalletInfo {
    pub network: Network,
    pub address: String,
}

#[derive(Debug, Clone)]
pub struct VirtualAccount {
    pub id: String,
    pub banking_partner: BankingPartner,
    pub kyc_status: String,
    pub us: UsBankingInfo,
    pub token: StablecoinToken,
    pub blockchain_wallet_id: String,
    pub blockchain_wallet: Option<BlockchainWalletInfo>,
}

#[derive(Debug, Clone)]
pub struct CreateVirtualAccountInput {
    pub receiver_id: String,
    pub banking_partner: BankingPartner,
    pub token: StablecoinToken,
    pub blockchain_wallet_id: String,
}

impl ToJson for CreateVirtualAccountInput {
    open spec fn json(&self) -> JsonView {
        JsonView::Object(
            Seq::<MemberView>::empty()
                .push(MemberView { name: "receiver_id"@, value: self.receiver_id.json() })
                .push(MemberView { name: "banking_partner"@, value: self.banking_partner.json() })
                .push(MemberView { name: "token"@, value: self.token.json() })
                .push(
                    MemberView {
                        name: "blockchain_wallet_id"@,
                        value: self.blockchain_wallet_id.json(),
                    },
                )
        )
    }

    fn to_json(&self) -> (doc: Json) {
        ObjectBuilder::new()
            .field("receiver_id", self.receiver_id.to_json())
            .field("banking_partner", self.banking_partner.to_json())
            .field("token", self.token.to_json())
            .field("blockchain_wallet_id", self.blockchain_wallet_id.to_json())
            .build()
    }
}

#[derive(Debug, Clone)]
pub struct UpdateVirtualAccountInput {
    pub receiver_id: String,
    pub id: String,
    pub token: StablecoinToken,
    pub blockchain_wallet_id: String,
}

impl ToJson for UpdateVirtualAccountInput {
    open spec fn json(&self) -> JsonView {
        JsonView::Object(
            Seq::<MemberView>::empty()
                .push(MemberView { name: "receiver_id"@, value: self.receiver_id.json() })
                .push(MemberView { name: "id"@, value: self.id.json() })
                .push(MemberView { name: "token"@, value: self.token.json() })
                .push(
                    MemberView {
                        name: "blockchain_wallet_id"@,
                        value: self.blockchain_wallet_id.json(),
                    },
                )
        )
    }

    fn to_json(&self) -> (doc: Json) {
        ObjectBuilder::new()
            .field("receiver_id", self.receiver_id.to_json())
            .field("id", self.id.to_json())
            .field("token", self.token.to_json())
            .field("blockchain_wallet_id", self.blockchain_wallet_id.to_json())
            .build()
    }
}

/// Operations on the virtual accounts of a receiver.
pub struct VirtualAccountsResource {
    client: BlindPay,
}

impl View for VirtualAccountsResource {
    type V = ClientView;

    closed spec fn view(&self) -> ClientView {
        self.client@
    }
}

impl VirtualAccountsResource {
    /// A handle that works with the configuration of `client`.
    pub fn new(client: BlindPay) -> (resource: Self)
        ensures
            resource@ == client@,
    {
        Self { client }
    }

    /// The request that lists the virtual accounts of a receiver.
    pub fn list(&self, receiver_id: &str) -> (request: HttpRequest)
        ensures
            request@ == self@.request(
                HttpMethod::Get,
                "/instances/"@
                    + self@.instance_id
                    + "/receivers/"@
                    + receiver_id@
                    + "/virtual-accounts"@,
                None,
            ),
    {
        let path = String::from_str("/instances/")
            .concat(self.client.instance_id())
            .concat("/receivers/")
            .concat(receiver_id)
            .concat("/virtual-accounts");
        self.client.get(path.as_str())
    }

    /// The request that reads one virtual account.
    pub fn get(&self, receiver_id: &str, id: &str) -> (request: HttpRequest)
        ensures
            request@ == self@.request(
                HttpMethod::Get,
                "/instances/"@
                    + self@.instance_id
                    + "/receivers/"@
                    + receiver_id@
                    + "/virtual-accounts/"@
                    + id@,
                None,
            ),
    {
        let path = String::from_str("/instances/")
            .concat(self.client.instance_id())
            .concat("/receivers/")
            .concat(receiver_id)
            .concat("/virtual-accounts/")
            .concat(id);
        self.client.get(path.as_str())
    }

    /// The request that creates a virtual account.
    pub fn create(&self, input: CreateVirtualAccountInput) -> (request: HttpRequest)
        ensures
            request@ == self@.request(
                HttpMethod::Post,
                "/instances/"@
                    + self@.instance_id
                    + "/receivers/"@
                    + input.receiver_id@
                    + "/virtual-accounts"@,
                Some(input.json()),
            ),
    {
        let path = String::from_str("/instances/")
            .concat(self.client.instance_id())
            .concat("/receivers/")
            .concat(input.receiver_id.as_str())
            .concat("/virtual-accounts");
        let body = input.to_json();
        self.client.post(path.as_str(), body)
    }

    /// The request that updates a virtual account.
    pub fn update(&self, input: UpdateVirtualAccountInput) -> (request: HttpRequest)
        ensures
            request@ == self@.request(
                HttpMethod::Put,
                "/instances/"@
                    + self@.instance_id
                    + "/receivers/"@
                    + input.receiver_id@
                    + "/virtual-accounts/"@
                    + input.id@,
                Some(input.json()),
            ),
    {
        let path = String::from_str("/instances/")
            .concat(self.client.instance_id())
            .concat("/receivers/")
            .concat(input.receiver_id.as_str())
            .concat("/virtual-accounts/")
            .concat(input.id.as_str());
        let body = input.to_json();
        self.client.put(path.as_str(), body)
    }
}

} // verus!

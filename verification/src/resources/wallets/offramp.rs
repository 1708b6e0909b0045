//! Offramp wallets.

use crate::client::{BlindPay, ClientView};
use crate::http::{HttpMethod, HttpRequest};
use crate::json::{Json, JsonView, MemberView, ObjectBuilder, ToJson};
use vstd::prelude::*;
use vstd::string::*;

verus! {

#[derive(Debug, Clone)]
pub struct OfframpWallet {
    pub id: String,
    pub external_id: String,
    pub instance_id: String,
    pub receiver_id: String,
    pub bank_account_id: String,
    pub network: String,
    pub address: String,
    pub created_at: String,
    pub updated_at: String,
}

#[derive(Debug, Clone)]
pub struct CreateOfframpWalletInput {
    pub receiver_id: String,
    pub bank_account_id: String,
    pub external_id: String,
    pub network: String,
}

impl ToJson for CreateOfframpWalletInput {
    open spec fn json(&self) -> JsonView {
        JsonView::Object(
            Seq::<MemberView>::empty()
                .push(MemberView { name: "receiver_id"@, value: self.receiver_id.json() })
                .push(MemberView { name: "bank_account_id"@, value: self.bank_account_id.json() })
                .push(MemberView { name: "external_id"@, value: self.external_id.json() })
                .push(MemberView { name: "network"@, value: self.network.json() })
        )
    }

    fn to_json(&self) -> (doc: Json) {
        ObjectBuilder::new()
            .field("receiver_id", self.receiver_id.to_json())
            .field("bank_account_id", self.bank_account_id.to_json())
            .field("external_id", self.external_id.to_json())
            .field("network", self.network.to_json())
            .build()
    }
}

/// Operations on the offramp wallets of a bank account.
pub struct OfframpWalletsResource {
    client: BlindPay,
}

impl View for OfframpWalletsResource {
    type V = ClientView;

    closed spec fn view(&self) -> ClientView {
        self.client@
    }
}

impl OfframpWalletsResource {
    /// A handle that works with the configuration of `client`.
    pub fn new(client: BlindPay) -> (resource: Self)
        ensures
            resource@ == client@,
    {
        Self { client }
    }

    /// The request that lists the offramp wallets of a bank account.
    pub fn list(&self, receiver_id: &str, bank_account_id: &str) -> (request: HttpRequest)
        ensures
            request@ == self@.request(
                HttpMethod::Get,
                "/instances/"@
                    + self@.instance_id
                    + "/receivers/"@
                    + receiver_id@
                    + "/bank-accounts/"@
                    + bank_account_id@
                    + "/offramp-wallets"@,
                None,
            ),
    {
        let path = String::from_str("/instances/")
            .concat(self.client.instance_id())
            .concat("/receivers/")
            .concat(receiver_id)
            .concat("/bank-accounts/")
            .concat(bank_account_id)
            .concat("/offramp-wallets");
        self.client.get(path.as_str())
    }

    /// The request that creates an offramp wallet.
    pub fn create(&self, input: CreateOfframpWalletInput) -> (request: HttpRequest)
        ensures
            request@ == self@.request(
                HttpMethod::Post,
                "/instances/"@
                    + self@.instance_id
                    + "/receivers/"@
                    + input.receiver_id@
                    + "/bank-accounts/"@
                    + input.bank_account_id@
                    + "/offramp-wallets"@,
                Some(input.json()),
            ),
    {
        let path = String::from_str("/instances/")
            .concat(self.client.instance_id())
            .concat("/receivers/")
            .concat(input.receiver_id.as_str())
            .concat("/bank-accounts/")
            .concat(input.bank_account_id.as_str())
            .concat("/offramp-wallets");
        let body = input.to_json();
        self.client.post(path.as_str(), body)
    }

    /// The request that reads one offramp wallet.
    pub fn get(
        &self,
        receiver_id: &str,
        bank_account_id: &str,
        wallet_id: &str,
    ) -> (request: HttpRequest)
        ensures
            request@ == self@.request(
                HttpMethod::Get,
                "/instances/"@
                    + self@.instance_id
                    + "/receivers/"@
                    + receiver_id@
                    + "/bank-accounts/"@
                    + bank_account_id@
                    + "/offramp-wallets/"@
                    + wallet_id@,
                None,
            ),
    {
        let path = String::from_str("/instances/")
            .concat(self.client.instance_id())
            .concat("/receivers/")
            .concat(receiver_id)
            .concat("/bank-accounts/")
            .concat(bank_account_id)
            .concat("/offramp-wallets/")
            .concat(wallet_id);
        self.client.get(path.as_str())
    }
}

} // verus!

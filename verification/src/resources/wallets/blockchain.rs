//! Blockchain wallets.

use crate::client::{BlindPay, ClientView};
use crate::http::{HttpMethod, HttpRequest};
use crate::json::{Json, JsonView, MemberView, ObjectBuilder, ToJson};
use crate::types::Network;
use vstd::prelude::*;
use vstd::string::*;

verus! {

#[derive(Debug, Clone)]
pub struct BlockchainWallet {
    pub id: String,
    pub name: String,
    pub network: Network,
    pub address: Option<String>,
    pub signature_tx_hash: Option<String>,
    pub is_account_abstraction: bool,
    pub receiver_id: String,
}

#[derive(Debug, Clone)]
pub struct CreateBlockchainWalletWithAddressInput {
    pub receiver_id: String,
    pub name: String,
    pub network: Network,
    pub address: String,
}

impl ToJson for CreateBlockchainWalletWithAddressInput {
    open spec fn json(&self) -> JsonView {
        JsonView::Object(
            Seq::<MemberView>::empty()
                .push(MemberView { name: "receiver_id"@, value: self.receiver_id.json() })
                .push(MemberView { name: "name"@, value: self.name.json() })
                .push(MemberView { name: "network"@, value: self.network.json() })
                .push(MemberView { name: "address"@, value: self.address.json() })
        )
    }

    fn to_json(&self) -> (doc: Json) {
        ObjectBuilder::new()
            .field("receiver_id", self.receiver_id.to_json())
            .field("name", self.name.to_json())
            .field("network", self.network.to_json())
            .field("address", self.address.to_json())
            .build()
    }
}

#[derive(Debug, Clone)]
pub struct CreateBlockchainWalletWithHashInput {
    pub receiver_id: String,
    pub name: String,
    pub network: Network,
    pub signature_tx_hash: String,
}

impl ToJson for CreateBlockchainWalletWithHashInput {
    open spec fn json(&self) -> JsonView {
        JsonView::Object(
            Seq::<MemberView>::empty()
                .push(MemberView { name: "receiver_id"@, value: self.receiver_id.json() })
                .push(MemberView { name: "name"@, value: self.name.json() })
                .push(MemberView { name: "network"@, value: self.network.json() })
                .push(
                    MemberView {
                        name: "signature_tx_hash"@,
                        value: self.signature_tx_hash.json(),
                    },
                )
        )
    }

    fn to_json(&self) -> (doc: Json) {
        ObjectBuilder::new()
            .field("receiver_id", self.receiver_id.to_json())
            .field("name", self.name.to_json())
            .field("network", self.network.to_json())
            .field("signature_tx_hash", self.signature_tx_hash.to_json())
            .build()
    }
}

#[derive(Debug, Clone)]
pub struct GetWalletMessageResponse {
    pub message: String,
}

/// Operations on the blockchain wallets of a receiver.
pub struct BlockchainWalletsResource {
    client: BlindPay,
}

impl View for BlockchainWalletsResource {
    type V = ClientView;

    closed spec fn view(&self) -> ClientView {
        self.client@
    }
}

impl BlockchainWalletsResource {
    /// A handle that works with the configuration of `client`.
    pub fn new(client: BlindPay) -> (resource: Self)
        ensures
            resource@ == client@,
    {
        Self { client }
    }

    /// The request that lists the blockchain wallets of a receiver.
    pub fn list(&self, receiver_id: &str) -> (request: HttpRequest)
        ensures
            request@ == self@.request(
                HttpMethod::Get,
                "/instances/"@
                    + self@.instance_id
                    + "/receivers/"@
                    + receiver_id@
                    + "/blockchain-wallets"@,
                None,
            ),
    {
        let path = String::from_str("/instances/")
            .concat(self.client.instance_id())
            .concat("/receivers/")
            .concat(receiver_id)
            .concat("/blockchain-wallets");
        self.client.get(path.as_str())
    }

    /// The request that creates a wallet from its address. The body is the input with
    /// `is_account_abstraction` set.
    pub fn create_with_address(
        &self,
        input: CreateBlockchainWalletWithAddressInput,
    ) -> (request: HttpRequest)
        ensures
            request@ == self@.request(
                HttpMethod::Post,
                "/instances/"@
                    + self@.instance_id
                    + "/receivers/"@
                    + input.receiver_id@
                    + "/blockchain-wallets"@,
                Some(
                    input.json()
                        .with_field("is_account_abstraction"@, JsonView::Bool(true)),
                ),
            ),
    {
        let path = String::from_str("/instances/")
            .concat(self.client.instance_id())
            .concat("/receivers/")
            .concat(input.receiver_id.as_str())
            .concat("/blockchain-wallets");
        let body = input.to_json()
            .with_field("is_account_abstraction", Json::Bool(true));
        self.client.post(path.as_str(), body)
    }

    /// The request that creates a wallet from a signature. The body is the input with
    /// `is_account_abstraction` cleared.
    pub fn create_with_hash(
        &self,
        input: CreateBlockchainWalletWithHashInput,
    ) -> (request: HttpRequest)
        ensures
            request@ == self@.request(
                HttpMethod::Post,
                "/instances/"@
                    + self@.instance_id
                    + "/receivers/"@
                    + input.receiver_id@
                    + "/blockchain-wallets"@,
                Some(
                    input.json()
                        .with_field("is_account_abstraction"@, JsonView::Bool(false)),
                ),
            ),
    {
        let path = String::from_str("/instances/")
            .concat(self.client.instance_id())
            .concat("/receivers/")
            .concat(input.receiver_id.as_str())
            .concat("/blockchain-wallets");
        let body = input.to_json()
            .with_field("is_account_abstraction", Json::Bool(false));
        self.client.post(path.as_str(), body)
    }

    /// The request that reads the message which a wallet has to sign.
    pub fn get_wallet_message(&self, receiver_id: &str) -> (request: HttpRequest)
        ensures
            request@ == self@.request(
                HttpMethod::Get,
                "/instances/"@
                    + self@.instance_id
                    + "/receivers/"@
                    + receiver_id@
                    + "/blockchain-wallets/sign-message"@,
                None,
            ),
    {
        let path = String::from_str("/instances/")
            .concat(self.client.instance_id())
            .concat("/receivers/")
            .concat(receiver_id)
            .concat("/blockchain-wallets/sign-message");
        self.client.get(path.as_str())
    }

    /// The request that reads one blockchain wallet.
    pub fn get(&self, receiver_id: &str, wallet_id: &str) -> (request: HttpRequest)
        ensures
            request@ == self@.request(
                HttpMethod::Get,
                "/instances/"@
                    + self@.instance_id
                    + "/receivers/"@
                    + receiver_id@
                    + "/blockchain-wallets/"@
                    + wallet_id@,
                None,
            ),
    {
        let path = String::from_str("/instances/")
            .concat(self.client.instance_id())
            .concat("/receivers/")
            .concat(receiver_id)
            .concat("/blockchain-wallets/")
            .concat(wallet_id);
        self.client.get(path.as_str())
    }

    /// The request that deletes one blockchain wallet.
    pub fn delete(&self, receiver_id: &str, wallet_id: &str) -> (request: HttpRequest)
        ensures
            request@ == self@.request(
                HttpMethod::Delete,
                "/instances/"@
                    + self@.instance_id
                    + "/receivers/"@
                    + receiver_id@
                    + "/blockchain-wallets/"@
                    + wallet_id@,
                None,
            ),
    {
        let path = String::from_str("/instances/")
            .concat(self.client.instance_id())
            .concat("/receivers/")
            .concat(receiver_id)
            .concat("/blockchain-wallets/")
            .concat(wallet_id);
        self.client.delete(path.as_str())
    }
}

} // verus!

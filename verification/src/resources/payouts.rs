//! Payouts.

use crate::client::{BlindPay, ClientView};
use crate::http::{HttpMethod, HttpRequest};
use crate::json::{Json, JsonView, MemberView, ObjectBuilder, ToJson};
use crate::types::{
    PaginationParams,
    PayoutTrackingComplete,
    PayoutTrackingLiquidity,
    PayoutTrackingPartnerFee,
    PayoutTrackingPayment,
    PayoutTrackingTransaction,
    TransactionStatus,
    pagination_query,
    query_string,
};
use vstd::prelude::*;
use vstd::string::*;

verus! {

#[derive(Debug, Clone)]
pub struct CreateStellarPayoutInput {
    pub quote_id: String,
    pub sender_wallet_address: String,
    pub signed_transaction: Option<String>,
}

impl ToJson for CreateStellarPayoutInput {
    open spec fn json(&self) -> JsonView {
        JsonView::Object(
            Seq::<MemberView>::empty()
                .push(MemberView { name: "quote_id"@, value: self.quote_id.json() })
                .push(
                    MemberView {
                        name: "sender_wallet_address"@,
                        value: self.sender_wallet_address.json(),
                    },
                )
                .push(
                    MemberView {
                        name: "signed_transaction"@,
                        value: self.signed_transaction.json(),
                    },
                )
        )
    }

    fn to_json(&self) -> (doc: Json) {
        ObjectBuilder::new()
            .field("quote_id", self.quote_id.to_json())
            .field("sender_wallet_address", self.sender_wallet_address.to_json())
            .field("signed_transaction", self.signed_transaction.to_json())
            .build()
    }
}

#[derive(Debug, Clone)]
pub struct CreatePayoutResponse {
    pub id: String,
    pub status: TransactionStatus,
    pub sender_wallet_address: String,
    pub tracking_complete: Option<PayoutTrackingComplete>,
    pub tracking_payment: Option<PayoutTrackingPayment>,
    pub tracking_transaction: Option<PayoutTrackingTransaction>,
    pub tracking_partner_fee: Option<PayoutTrackingPartnerFee>,
    pub tracking_liquidity: Option<PayoutTrackingLiquidity>,
    pub receiver_id: String,
}

/// Operations on payouts.
pub struct PayoutsResource {
    client: BlindPay,
}

impl View for PayoutsResource {
    type V = ClientView;

    closed spec fn view(&self) -> ClientView {
        self.client@
    }
}

impl PayoutsResource {
    /// A handle that works with the configuration of `client`.
    pub fn new(client: BlindPay) -> (resource: Self)
        ensures
            resource@ == client@,
    {
        Self { client }
    }

    /// The request that lists the payouts. Of the parameters only a limit and an offset that
    /// are present go into the query.
    pub fn list(&self, params: Option<PaginationParams>) -> (request: HttpRequest)
        ensures
            request@ == self@.request(
                HttpMethod::Get,
                "/instances/"@ + self@.instance_id + "/payouts"@ + query_string(params),
                None,
            ),
    {
        let query = pagination_query(&params);
        let path = String::from_str("/instances/")
            .concat(self.client.instance_id())
            .concat("/payouts")
            .concat(query.as_str());
        self.client.get(path.as_str())
    }

    /// The request that reads one payout.
    pub fn get(&self, payout_id: &str) -> (request: HttpRequest)
        ensures
            request@ == self@.request(
                HttpMethod::Get,
                "/instances/"@ + self@.instance_id + "/payouts/"@ + payout_id@,
                None,
            ),
    {
        let path = String::from_str("/instances/")
            .concat(self.client.instance_id())
            .concat("/payouts/")
            .concat(payout_id);
        self.client.get(path.as_str())
    }

    /// The request that tracks one payout.
    pub fn get_track(&self, payout_id: &str) -> (request: HttpRequest)
        ensures
            request@ == self@.request(
                HttpMethod::Get,
                "/e/payouts/"@ + payout_id@,
                None,
            ),
    {
        let path = String::from_str("/e/payouts/")
            .concat(payout_id);
        self.client.get(path.as_str())
    }

    /// The request that creates a payout on Stellar.
    pub fn create_stellar(&self, input: CreateStellarPayoutInput) -> (request: HttpRequest)
        ensures
            request@ == self@.request(
                HttpMethod::Post,
                "/instances/"@ + self@.instance_id + "/payouts/stellar"@,
                Some(input.json()),
            ),
    {
        let path = String::from_str("/instances/")
            .concat(self.client.instance_id())
            .concat("/payouts/stellar");
        let body = input.to_json();
        self.client.post(path.as_str(), body)
    }

    /// The request that creates a payout on an EVM chain.
    pub fn create_evm(&self, quote_id: &str, sender_wallet_address: &str) -> (request: HttpRequest)
        ensures
            request@ == self@.request(
                HttpMethod::Post,
                "/instances/"@ + self@.instance_id + "/payouts/evm"@,
                Some(
                    JsonView::Object(
                        Seq::<MemberView>::empty()
                            .push(MemberView { name: "quote_id"@, value: JsonView::Str(quote_id@) })
                            .push(
                                MemberView {
                                    name: "sender_wallet_address"@,
                                    value: JsonView::Str(sender_wallet_address@),
                                },
                            ),
                    ),
                ),
            ),
    {
        let path = String::from_str("/instances/")
            .concat(self.client.instance_id())
            .concat("/payouts/evm");
        let body = ObjectBuilder::new()
            .field("quote_id", Json::string(quote_id))
            .field("sender_wallet_address", Json::string(sender_wallet_address))
            .build();
        self.client.post(path.as_str(), body)
    }

    /// The request that creates a payout on Solana. A missing signed transaction is sent as
    /// null.
    pub fn create_solana(
        &self,
        quote_id: &str,
        sender_wallet_address: &str,
        signed_transaction: Option<String>,
    ) -> (request: HttpRequest)
        ensures
            request@ == self@.request(
                HttpMethod::Post,
                "/instances/"@ + self@.instance_id + "/payouts/solana"@,
                Some(
                    JsonView::Object(
                        Seq::<MemberView>::empty()
                            .push(MemberView { name: "quote_id"@, value: JsonView::Str(quote_id@) })
                            .push(
                                MemberView {
                                    name: "sender_wallet_address"@,
                                    value: JsonView::Str(sender_wallet_address@),
                                },
                            )
                            .push(
                                MemberView {
                                    name: "signed_transaction"@,
                                    value: signed_transaction.json(),
                                },
                            ),
                    ),
                ),
            ),
    {
        let path = String::from_str("/instances/")
            .concat(self.client.instance_id())
            .concat("/payouts/solana");
        let body = ObjectBuilder::new()
            .field("quote_id", Json::string(quote_id))
            .field("sender_wallet_address", Json::string(sender_wallet_address))
            .field("signed_transaction", signed_transaction.to_json())
            .build();
        self.client.post(path.as_str(), body)
    }
}

} // verus!

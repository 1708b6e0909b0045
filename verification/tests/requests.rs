use blindpay::http::HttpMethod;
use blindpay::json::{Json, Member, ToJson};
use blindpay::resources::api_keys::{ApiKeyPermission, CreateApiKeyInput};
use blindpay::resources::bank_accounts::{
    CreateAchInput, CreateArgentinaTransfersInput, CreatePixInput, CreateSpeiInput, SpeiProtocol,
};
use blindpay::resources::instances::{InstanceMemberRole, UpdateInstanceMemberRoleInput};
use blindpay::resources::payouts::CreateStellarPayoutInput;
use blindpay::resources::receivers::{
    LimitIncreaseRequestSupportingDocumentType, ProofOfAddressDocType, RequestLimitIncreaseInput,
};
use blindpay::resources::terms_of_service::InitiateInput;
use blindpay::resources::virtual_accounts::{BankingPartner, UpdateVirtualAccountInput};
use blindpay::resources::wallets::blockchain::{
    CreateBlockchainWalletWithAddressInput, CreateBlockchainWalletWithHashInput,
};
use blindpay::resources::wallets::offramp::CreateOfframpWalletInput;
use blindpay::resources::webhooks::{CreateWebhookEndpointInput, WebhookEvent};
use blindpay::types::{
    pagination_query, AccountClass, ArgentinaTransfers, BankAccountType, Country,
    EstimatedTimeOfArrival, Network, PaginationParams, Rail, StablecoinToken,
};
use blindpay::BlindPay;

const BASE: &str = "https://api.blindpay.com/v1";

fn client() -> BlindPay {
    BlindPay::new("sk_test", "in_1").unwrap()
}

fn member(name: &str, value: Json) -> Member {
    Member { name: name.to_string(), value }
}

fn text(value: &str) -> Json {
    Json::string(value)
}

fn params(limit: Option<&str>, offset: Option<&str>) -> PaginationParams {
    PaginationParams {
        limit: limit.map(|l| l.to_string()),
        offset: offset.map(|o| o.to_string()),
        starting_after: None,
        ending_before: None,
    }
}

#[test]
fn create_pix_injects_the_type() {
    let input = CreatePixInput {
        receiver_id: "re_123".to_string(),
        name: "My PIX".to_string(),
        pix_key: "14947677768".to_string(),
    };
    let request = client().receivers().bank_accounts().create_pix(input);
    assert_eq!(request.method, HttpMethod::Post);
    assert_eq!(request.url, format!("{}/instances/in_1/receivers/re_123/bank-accounts", BASE));
    let body = request.body.unwrap();
    assert_eq!(
        body,
        Json::Object(vec![
            member("receiver_id", text("re_123")),
            member("name", text("My PIX")),
            member("pix_key", text("14947677768")),
            member("type", text("pix")),
        ])
    );
    assert_eq!(body.get("type"), Some(&text("pix")));
}

#[test]
fn list_without_parameters_has_no_query() {
    let request = client().payins().list(None);
    assert_eq!(request.method, HttpMethod::Get);
    assert_eq!(request.url, format!("{}/instances/in_1/payins", BASE));
    assert!(!request.url.contains("limit"));
    assert!(!request.url.contains("offset"));
    assert!(!request.url.contains('?'));
    let request = client().payouts().list(Some(params(None, None)));
    assert_eq!(request.url, format!("{}/instances/in_1/payouts", BASE));
}

#[test]
fn list_with_a_limit_names_it_alone() {
    let request = client().payins().list(Some(params(Some("5"), None)));
    assert_eq!(request.url, format!("{}/instances/in_1/payins?limit=5", BASE));
    let request = client().payouts().list(Some(params(Some("5"), None)));
    assert_eq!(request.url, format!("{}/instances/in_1/payouts?limit=5", BASE));
}

#[test]
fn list_with_offset_and_both() {
    assert_eq!(pagination_query(&None), "");
    assert_eq!(pagination_query(&Some(params(None, Some("10")))), "?offset=10");
    assert_eq!(pagination_query(&Some(params(Some("5"), Some("10")))), "?limit=5&offset=10");
    let cursors = PaginationParams {
        limit: None,
        offset: None,
        starting_after: Some("a".to_string()),
        ending_before: Some("b".to_string()),
    };
    assert_eq!(pagination_query(&Some(cursors)), "");
}

#[test]
fn wire_names_of_variants() {
    assert_eq!(Rail::SpeiBitso.as_str(), "spei_bitso");
    assert_eq!(Rail::AchCopBitso.as_str(), "ach_cop_bitso");
    assert_eq!(Rail::InternationalSwift.as_str(), "international_swift");
    assert_eq!(Network::ArbitrumSepolia.as_str(), "arbitrum_sepolia");
    assert_eq!(StablecoinToken::USDC.as_str(), "USDC");
    assert_eq!(ArgentinaTransfers::ALIAS.as_str(), "ALIAS");
    assert_eq!(Country::BR.as_str(), "B_R");
    assert_eq!(ProofOfAddressDocType::UtilityBill.as_str(), "UTILITY_BILL");
    assert_eq!(EstimatedTimeOfArrival::OneBusinessDay.as_str(), "1_business_day");
    assert_eq!(WebhookEvent::PayoutPartnerFee.as_str(), "payout.partnerFee");
    assert_eq!(WebhookEvent::TosAccept.as_str(), "tos.accept");
    assert_eq!(BankingPartner::Jpmorgan.as_str(), "jpmorgan");
    assert_eq!(Rail::Pix.to_json(), text("pix"));
}

#[test]
fn available_paths() {
    let available = client().available();
    assert_eq!(
        available.get_bank_details(Rail::SpeiBitso).url,
        format!("{}/available/bank-details?rail=spei_bitso", BASE)
    );
    assert_eq!(available.get_rails().url, format!("{}/available/rails", BASE));
    assert_eq!(
        available.get_swift_code_bank_details("BOFAUS3N").url,
        format!("{}/available/swift/BOFAUS3N", BASE)
    );
}

#[test]
fn api_key_requests() {
    let keys = client().instances().api_keys();
    assert_eq!(keys.get("ak_1").url, format!("{}/instances/in_1/api-keys/ak_1", BASE));
    let removal = keys.delete("ak_1");
    assert_eq!(removal.method, HttpMethod::Delete);
    assert_eq!(removal.url, format!("{}/instances/in_1/api-keys/ak_1", BASE));
    let input = CreateApiKeyInput {
        name: "ci".to_string(),
        permission: ApiKeyPermission::FullAccess,
        ip_whitelist: Some(vec!["10.0.0.1".to_string()]),
    };
    let creation = keys.create(input);
    assert_eq!(creation.method, HttpMethod::Post);
    assert_eq!(
        creation.body,
        Some(Json::Object(vec![
            member("name", text("ci")),
            member("permission", text("full_access")),
            member("ip_whitelist", Json::Array(vec![text("10.0.0.1")])),
        ]))
    );
}

#[test]
fn bank_account_requests() {
    let accounts = client().receivers().bank_accounts();
    assert_eq!(
        accounts.list("re_1").url,
        format!("{}/instances/in_1/receivers/re_1/bank-accounts", BASE)
    );
    assert_eq!(
        accounts.get("re_1", "ba_2").url,
        format!("{}/instances/in_1/receivers/re_1/bank-accounts/ba_2", BASE)
    );
    assert_eq!(accounts.delete("re_1", "ba_2").method, HttpMethod::Delete);
    let spei = accounts.create_spei(CreateSpeiInput {
        receiver_id: "re_1".to_string(),
        beneficiary_name: "B".to_string(),
        name: "N".to_string(),
        spei_clabe: "123".to_string(),
        spei_institution_code: "40002".to_string(),
        spei_protocol: SpeiProtocol::Clabe,
    });
    let body = spei.body.unwrap();
    assert_eq!(body.get("type"), Some(&text("spei_bitso")));
    assert_eq!(body.get("spei_protocol"), Some(&text("clabe")));
    let transfers = accounts.create_argentina_transfers(CreateArgentinaTransfersInput {
        receiver_id: "re_1".to_string(),
        name: "N".to_string(),
        beneficiary_name: "B".to_string(),
        transfers_account: "acc".to_string(),
        transfers_type: ArgentinaTransfers::CVU,
    });
    assert_eq!(transfers.body.unwrap().get("type"), Some(&text("transfers_bitso")));
    let ach = accounts.create_ach(CreateAchInput {
        receiver_id: "re_9".to_string(),
        name: "N".to_string(),
        account_class: AccountClass::Business,
        account_number: "1".to_string(),
        account_type: BankAccountType::Saving,
        beneficiary_name: "B".to_string(),
        routing_number: "2".to_string(),
    });
    assert_eq!(ach.url, format!("{}/instances/in_1/receivers/re_9/bank-accounts", BASE));
    let body = ach.body.unwrap();
    assert_eq!(body.get("type"), Some(&text("ach")));
    assert_eq!(body.get("account_type"), Some(&text("saving")));
    assert_eq!(body.get("account_class"), Some(&text("business")));
}

#[test]
fn instance_requests() {
    let instances = client().instances();
    assert_eq!(instances.get_members().url, format!("{}/instances/in_1/members", BASE));
    assert_eq!(instances.delete().url, format!("{}/instances/in_1", BASE));
    assert_eq!(
        instances.delete_member("me_1").url,
        format!("{}/instances/in_1/members/me_1", BASE)
    );
    let role = instances.update_member_role(UpdateInstanceMemberRoleInput {
        member_id: "me_1".to_string(),
        role: InstanceMemberRole::Finance,
    });
    assert_eq!(role.method, HttpMethod::Put);
    assert_eq!(role.url, format!("{}/instances/in_1/members/me_1", BASE));
    assert_eq!(role.body, Some(Json::Object(vec![member("role", text("finance"))])));
    let tos = instances.tos().initiate(InitiateInput {
        idempotency_key: "k".to_string(),
        receiver_id: None,
        redirect_url: Some("https://e.x".to_string()),
    });
    assert_eq!(tos.url, format!("{}/e/instances/in_1/tos", BASE));
    assert_eq!(
        tos.body,
        Some(Json::Object(vec![
            member("idempotency_key", text("k")),
            member("receiver_id", Json::Null),
            member("redirect_url", text("https://e.x")),
        ]))
    );
}

#[test]
fn payin_and_payout_requests() {
    let payins = client().payins();
    assert_eq!(payins.get("pi_1").url, format!("{}/instances/in_1/payins/pi_1", BASE));
    assert_eq!(payins.get_track("pi_1").url, format!("{}/e/payins/pi_1", BASE));
    let evm = payins.create_evm("pq_1");
    assert_eq!(evm.url, format!("{}/instances/in_1/payins/evm", BASE));
    assert_eq!(evm.body, Some(Json::Object(vec![member("payin_quote_id", text("pq_1"))])));
    let payouts = client().payouts();
    assert_eq!(payouts.get_track("po_1").url, format!("{}/e/payouts/po_1", BASE));
    let solana = payouts.create_solana("qu_1", "wallet", None);
    assert_eq!(solana.url, format!("{}/instances/in_1/payouts/solana", BASE));
    assert_eq!(
        solana.body,
        Some(Json::Object(vec![
            member("quote_id", text("qu_1")),
            member("sender_wallet_address", text("wallet")),
            member("signed_transaction", Json::Null),
        ]))
    );
    let evm = payouts.create_evm("qu_1", "wallet");
    assert_eq!(
        evm.body,
        Some(Json::Object(vec![
            member("quote_id", text("qu_1")),
            member("sender_wallet_address", text("wallet")),
        ]))
    );
    let stellar = payouts.create_stellar(CreateStellarPayoutInput {
        quote_id: "qu_1".to_string(),
        sender_wallet_address: "wallet".to_string(),
        signed_transaction: Some("tx".to_string()),
    });
    assert_eq!(stellar.url, format!("{}/instances/in_1/payouts/stellar", BASE));
    assert_eq!(stellar.body.unwrap().get("signed_transaction"), Some(&text("tx")));
}

#[test]
fn quote_and_fee_requests_pass_the_document_on() {
    let document = Json::Object(vec![member("request_amount", Json::Number("10.5".to_string()))]);
    let quote = client().quotes().create(document.clone());
    assert_eq!(quote.url, format!("{}/instances/in_1/quotes", BASE));
    assert_eq!(quote.body, Some(document.clone()));
    assert_eq!(
        client().quotes().get_fx_rate(Json::Null).url,
        format!("{}/instances/in_1/quotes/fx", BASE)
    );
    let payin_quotes = client().payins().quotes();
    assert_eq!(
        payin_quotes.create(Json::Null).url,
        format!("{}/instances/in_1/payin-quotes", BASE)
    );
    assert_eq!(
        payin_quotes.get_fx_rate(Json::Null).url,
        format!("{}/instances/in_1/payin-quotes/fx", BASE)
    );
    let fees = client().partner_fees();
    assert_eq!(fees.create(document).method, HttpMethod::Post);
    assert_eq!(fees.get("fe_1").url, format!("{}/instances/in_1/partner-fees/fe_1", BASE));
    assert_eq!(fees.list().url, format!("{}/instances/in_1/partner-fees", BASE));
    assert_eq!(fees.delete("fe_1").method, HttpMethod::Delete);
}

#[test]
fn receiver_requests() {
    let receivers = client().receivers();
    assert_eq!(receivers.get("re_1").url, format!("{}/instances/in_1/receivers/re_1", BASE));
    assert_eq!(
        receivers.get_limits("re_1").url,
        format!("{}/instances/in_1/limits/receivers/re_1", BASE)
    );
    assert_eq!(
        receivers.get_limit_increase_requests("re_1").url,
        format!("{}/instances/in_1/receivers/re_1/limit-increase", BASE)
    );
    let request = receivers.request_limit_increase(RequestLimitIncreaseInput {
        receiver_id: "re_1".to_string(),
        daily: 10000,
        monthly: 50000,
        per_transaction: 5000,
        supporting_document_file: "https://f.x/doc".to_string(),
        supporting_document_type:
            LimitIncreaseRequestSupportingDocumentType::IndividualBankStatement,
    });
    assert_eq!(request.url, format!("{}/instances/in_1/receivers/re_1/limit-increase", BASE));
    let body = request.body.unwrap();
    assert_eq!(body.get("daily"), Some(&Json::Number("10000".to_string())));
    assert_eq!(body.get("per_transaction"), Some(&Json::Number("5000".to_string())));
    assert_eq!(body.get("supporting_document_type"), Some(&text("individual_bank_statement")));
}

#[test]
fn virtual_account_and_webhook_requests() {
    let accounts = client().virtual_accounts();
    let update = accounts.update(UpdateVirtualAccountInput {
        receiver_id: "re_1".to_string(),
        id: "va_1".to_string(),
        token: StablecoinToken::USDB,
        blockchain_wallet_id: "bw_1".to_string(),
    });
    assert_eq!(update.method, HttpMethod::Put);
    assert_eq!(
        update.url,
        format!("{}/instances/in_1/receivers/re_1/virtual-accounts/va_1", BASE)
    );
    assert_eq!(update.body.unwrap().get("token"), Some(&text("USDB")));
    let hooks = client().instances().webhook_endpoints();
    assert_eq!(
        hooks.get_secret("we_1").url,
        format!("{}/instances/in_1/webhook-endpoints/we_1/secret", BASE)
    );
    assert_eq!(
        hooks.get_portal_access_url().url,
        format!("{}/instances/in_1/webhook-endpoints/portal-access", BASE)
    );
    let creation = hooks.create(CreateWebhookEndpointInput {
        url: "https://h.x".to_string(),
        events: vec![WebhookEvent::ReceiverNew, WebhookEvent::BankAccountNew],
    });
    assert_eq!(
        creation.body,
        Some(Json::Object(vec![
            member("url", text("https://h.x")),
            member("events", Json::Array(vec![text("receiver.new"), text("bankAccount.new")])),
        ]))
    );
}

#[test]
fn wallet_requests() {
    let wallets = client().wallets().blockchain();
    let by_address = wallets.create_with_address(CreateBlockchainWalletWithAddressInput {
        receiver_id: "re_1".to_string(),
        name: "w".to_string(),
        network: Network::Polygon,
        address: "0xabc".to_string(),
    });
    assert_eq!(by_address.body.unwrap().get("is_account_abstraction"), Some(&Json::Bool(true)));
    let by_hash = wallets.create_with_hash(CreateBlockchainWalletWithHashInput {
        receiver_id: "re_1".to_string(),
        name: "w".to_string(),
        network: Network::Polygon,
        signature_tx_hash: "0xdef".to_string(),
    });
    let body = by_hash.body.unwrap();
    assert_eq!(body.get("is_account_abstraction"), Some(&Json::Bool(false)));
    assert_eq!(body.get("network"), Some(&text("polygon")));
    assert_eq!(
        wallets.get_wallet_message("re_1").url,
        format!("{}/instances/in_1/receivers/re_1/blockchain-wallets/sign-message", BASE)
    );
    assert_eq!(
        wallets.get("re_1", "bw_1").url,
        format!("{}/instances/in_1/receivers/re_1/blockchain-wallets/bw_1", BASE)
    );
    let offramp = client().wallets().offramp();
    assert_eq!(
        offramp.get("re_1", "ba_1", "ow_1").url,
        format!("{}/instances/in_1/receivers/re_1/bank-accounts/ba_1/offramp-wallets/ow_1", BASE)
    );
    let creation = offramp.create(CreateOfframpWalletInput {
        receiver_id: "re_1".to_string(),
        bank_account_id: "ba_1".to_string(),
        external_id: "ext".to_string(),
        network: "tron".to_string(),
    });
    assert_eq!(
        creation.url,
        format!("{}/instances/in_1/receivers/re_1/bank-accounts/ba_1/offramp-wallets", BASE)
    );
}

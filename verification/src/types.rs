//! The data types that several parts of the API share, and the query of a list call.

use crate::json::{Json, JsonView, ToJson};
use vstd::prelude::*;
use vstd::string::*;

verus! {

/// The two shapes of a response body under a success status.
#[derive(Debug, Clone)]
pub enum BlindPayApiResponse<T> {
    Success(BlindPaySuccessResponse<T>),
    Error(BlindPayErrorResponse),
}

/// A body that carries a payload.
#[derive(Debug, Clone)]
pub struct BlindPaySuccessResponse<T> {
    pub data: T,
    pub error: Option<()>,
}

/// A body that carries the server's account of a failure.
#[derive(Debug, Clone)]
pub struct BlindPayErrorResponse {
    pub data: Option<()>,
    pub error: ErrorResponse,
}

/// The server's account of a failure.
#[derive(Debug, Clone)]
pub struct ErrorResponse {
    pub message: String,
}

#[derive(Debug, Clone, Copy, PartialEq, Eq)]
pub enum CurrencyType {
    Sender,
    Receiver,
}

impl CurrencyType {
    /// The name of the variant on the wire.
    pub open spec fn wire(self) -> Seq<char> {
        match self {
            CurrencyType::Sender => "sender"@,
            CurrencyType::Receiver => "receiver"@,
        }
    }

    /// The name of the variant on the wire.
    pub fn as_str(&self) -> (name: &'static str)
        ensures
            name@ == self.wire(),
    {
        match self {
            CurrencyType::Sender => "sender",
            CurrencyType::Receiver => "receiver",
        }
    }
}

impl ToJson for CurrencyType {
    open spec fn json(&self) -> JsonView {
        JsonView::Str(self.wire())
    }

    fn to_json(&self) -> (doc: Json) {
        Json::string(self.as_str())
    }
}

#[derive(Debug, Clone, Copy, PartialEq, Eq)]
pub enum Network {
    Base,
    Sepolia,
    ArbitrumSepolia,
    BaseSepolia,
    Arbitrum,
    Polygon,
    PolygonAmoy,
    Ethereum,
    Stellar,
    StellarTestnet,
    Tron,
    Solana,
    SolanaDevnet,
}

impl Network {
    /// The name of the variant on the wire.
    pub open spec fn wire(self) -> Seq<char> {
        match self {
            Network::Base => "base"@,
            Network::Sepolia => "sepolia"@,
            Network::ArbitrumSepolia => "arbitrum_sepolia"@,
            Network::BaseSepolia => "base_sepolia"@,
            Network::Arbitrum => "arbitrum"@,
            Network::Polygon => "polygon"@,
            Network::PolygonAmoy => "polygon_amoy"@,
            Network::Ethereum => "ethereum"@,
            Network::Stellar => "stellar"@,
            Network::StellarTestnet => "stellar_testnet"@,
            Network::Tron => "tron"@,
            Network::Solana => "solana"@,
            Network::SolanaDevnet => "solana_devnet"@,
        }
    }

    /// The name of the variant on the wire.
    pub fn as_str(&self) -> (name: &'static str)
        ensures
            name@ == self.wire(),
    {
        match self {
            Network::Base => "base",
            Network::Sepolia => "sepolia",
            Network::ArbitrumSepolia => "arbitrum_sepolia",
            Network::BaseSepolia => "base_sepolia",
            Network::Arbitrum => "arbitrum",
            Network::Polygon => "polygon",
            Network::PolygonAmoy => "polygon_amoy",
            Network::Ethereum => "ethereum",
            Network::Stellar => "stellar",
            Network::StellarTestnet => "stellar_testnet",
            Network::Tron => "tron",
            Network::Solana => "solana",
            Network::SolanaDevnet => "solana_devnet",
        }
    }
}

impl ToJson for Network {
    open spec fn json(&self) -> JsonView {
        JsonView::Str(self.wire())
    }

    fn to_json(&self) -> (doc: Json) {
        Json::string(self.as_str())
    }
}

#[derive(Debug, Clone, Copy, PartialEq, Eq)]
pub enum StablecoinToken {
    USDC,
    USDT,
    USDB,
}

impl StablecoinToken {
    /// The name of the variant on the wire.
    pub open spec fn wire(self) -> Seq<char> {
        match self {
            StablecoinToken::USDC => "USDC"@,
            StablecoinToken::USDT => "USDT"@,
            StablecoinToken::USDB => "USDB"@,
        }
    }

    /// The name of the variant on the wire.
    pub fn as_str(&self) -> (name: &'static str)
        ensures
            name@ == self.wire(),
    {
        match self {
            StablecoinToken::USDC => "USDC",
            StablecoinToken::USDT => "USDT",
            StablecoinToken::USDB => "USDB",
        }
    }
}

impl ToJson for StablecoinToken {
    open spec fn json(&self) -> JsonView {
        JsonView::Str(self.wire())
    }

    fn to_json(&self) -> (doc: Json) {
        Json::string(self.as_str())
    }
}

#[derive(Debug, Clone, Copy, PartialEq, Eq)]
pub enum TransactionDocumentType {
    Invoice,
    PurchaseOrder,
    DeliverySlip,
    Contract,
    CustomsDeclaration,
    BillOfLading,
    Others,
}

impl TransactionDocumentType {
    /// The name of the variant on the wire.
    pub open spec fn wire(self) -> Seq<char> {
        match self {
            TransactionDocumentType::Invoice => "invoice"@,
            TransactionDocumentType::PurchaseOrder => "purchase_order"@,
            TransactionDocumentType::DeliverySlip => "delivery_slip"@,
            TransactionDocumentType::Contract => "contract"@,
            TransactionDocumentType::CustomsDeclaration => "customs_declaration"@,
            TransactionDocumentType::BillOfLading => "bill_of_lading"@,
            TransactionDocumentType::Others => "others"@,
        }
    }

    /// The name of the variant on the wire.
    pub fn as_str(&self) -> (name: &'static str)
        ensures
            name@ == self.wire(),
    {
        match self {
            TransactionDocumentType::Invoice => "invoice",
            TransactionDocumentType::PurchaseOrder => "purchase_order",
            TransactionDocumentType::DeliverySlip => "delivery_slip",
            TransactionDocumentType::Contract => "contract",
            TransactionDocumentType::CustomsDeclaration => "customs_declaration",
            TransactionDocumentType::BillOfLading => "bill_of_lading",
            TransactionDocumentType::Others => "others",
        }
    }
}

impl ToJson for TransactionDocumentType {
    open spec fn json(&self) -> JsonView {
        JsonView::Str(self.wire())
    }

    fn to_json(&self) -> (doc: Json) {
        Json::string(self.as_str())
    }
}

#[derive(Debug, Clone, Copy, PartialEq, Eq)]
pub enum BankAccountType {
    Checking,
    Saving,
}

impl BankAccountType {
    /// The name of the variant on the wire.
    pub open spec fn wire(self) -> Seq<char> {
        match self {
            BankAccountType::Checking => "checking"@,
            BankAccountType::Saving => "saving"@,
        }
    }

    /// The name of the variant on the wire.
    pub fn as_str(&self) -> (name: &'static str)
        ensures
            name@ == self.wire(),
    {
        match self {
            BankAccountType::Checking => "checking",
            BankAccountType::Saving => "saving",
        }
    }
}

impl ToJson for BankAccountType {
    open spec fn json(&self) -> JsonView {
        JsonView::Str(self.wire())
    }

    fn to_json(&self) -> (doc: Json) {
        Json::string(self.as_str())
    }
}

#[derive(Debug, Clone, Copy, PartialEq, Eq)]
pub enum Currency {
    USDC,
    USDT,
    USDB,
    BRL,
    USD,
    MXN,
    COP,
    ARS,
}

impl Currency {
    /// The name of the variant on the wire.
    pub open spec fn wire(self) -> Seq<char> {
        match self {
            Currency::USDC => "USDC"@,
            Currency::USDT => "USDT"@,
            Currency::USDB => "USDB"@,
            Currency::BRL => "BRL"@,
            Currency::USD => "USD"@,
            Currency::MXN => "MXN"@,
            Currency::COP => "COP"@,
            Currency::ARS => "ARS"@,
        }
    }

    /// The name of the variant on the wire.
    pub fn as_str(&self) -> (name: &'static str)
        ensures
            name@ == self.wire(),
    {
        match self {
            Currency::USDC => "USDC",
            Currency::USDT => "USDT",
            Currency::USDB => "USDB",
            Currency::BRL => "BRL",
            Currency::USD => "USD",
            Currency::MXN => "MXN",
            Currency::COP => "COP",
            Currency::ARS => "ARS",
        }
    }
}

impl ToJson for Currency {
    open spec fn json(&self) -> JsonView {
        JsonView::Str(self.wire())
    }

    fn to_json(&self) -> (doc: Json) {
        Json::string(self.as_str())
    }
}

#[derive(Debug, Clone, Copy, PartialEq, Eq)]
pub enum Rail {
    Wire,
    Ach,
    Pix,
    SpeiBitso,
    TransfersBitso,
    AchCopBitso,
    InternationalSwift,
    Rtp,
}

impl Rail {
    /// The name of the variant on the wire.
    pub open spec fn wire(self) -> Seq<char> {
        match self {
            Rail::Wire => "wire"@,
            Rail::Ach => "ach"@,
            Rail::Pix => "pix"@,
            Rail::SpeiBitso => "spei_bitso"@,
            Rail::TransfersBitso => "transfers_bitso"@,
            Rail::AchCopBitso => "ach_cop_bitso"@,
            Rail::InternationalSwift => "international_swift"@,
            Rail::Rtp => "rtp"@,
        }
    }

    /// The name of the variant on the wire.
    pub fn as_str(&self) -> (name: &'static str)
        ensures
            name@ == self.wire(),
    {
        match self {
            Rail::Wire => "wire",
            Rail::Ach => "ach",
            Rail::Pix => "pix",
            Rail::SpeiBitso => "spei_bitso",
            Rail::TransfersBitso => "transfers_bitso",
            Rail::AchCopBitso => "ach_cop_bitso",
            Rail::InternationalSwift => "international_swift",
            Rail::Rtp => "rtp",
        }
    }
}

impl ToJson for Rail {
    open spec fn json(&self) -> JsonView {
        JsonView::Str(self.wire())
    }

    fn to_json(&self) -> (doc: Json) {
        Json::string(self.as_str())
    }
}

#[derive(Debug, Clone, Copy, PartialEq, Eq)]
pub enum AccountClass {
    Individual,
    Business,
}

impl AccountClass {
    /// The name of the variant on the wire.
    pub open spec fn wire(self) -> Seq<char> {
        match self {
            AccountClass::Individual => "individual"@,
            AccountClass::Business => "business"@,
        }
    }

    /// The name of the variant on the wire.
    pub fn as_str(&self) -> (name: &'static str)
        ensures
            name@ == self.wire(),
    {
        match self {
            AccountClass::Individual => "individual",
            AccountClass::Business => "business",
        }
    }
}

impl ToJson for AccountClass {
    open spec fn json(&self) -> JsonView {
        JsonView::Str(self.wire())
    }

    fn to_json(&self) -> (doc: Json) {
        Json::string(self.as_str())
    }
}

#[derive(Debug, Clone, Copy, PartialEq, Eq)]
pub enum TransactionStatus {
    Refunded,
    Processing,
    Completed,
    Failed,
    OnHold,
}

impl TransactionStatus {
    /// The name of the variant on the wire.
    pub open spec fn wire(self) -> Seq<char> {
        match self {
            TransactionStatus::Refunded => "refunded"@,
            TransactionStatus::Processing => "processing"@,
            TransactionStatus::Completed => "completed"@,
            TransactionStatus::Failed => "failed"@,
            TransactionStatus::OnHold => "on_hold"@,
        }
    }

    /// The name of the variant on the wire.
    pub fn as_str(&self) -> (name: &'static str)
        ensures
            name@ == self.wire(),
    {
        match self {
            TransactionStatus::Refunded => "refunded",
            TransactionStatus::Processing => "processing",
            TransactionStatus::Completed => "completed",
            TransactionStatus::Failed => "failed",
            TransactionStatus::OnHold => "on_hold",
        }
    }
}

impl ToJson for TransactionStatus {
    open spec fn json(&self) -> JsonView {
        JsonView::Str(self.wire())
    }

    fn to_json(&self) -> (doc: Json) {
        Json::string(self.as_str())
    }
}

#[derive(Debug, Clone, Copy, PartialEq, Eq)]
pub enum Country {
    US,
    BR,
    MX,
    AR,
    CO,
}

impl Country {
    /// The name of the variant on the wire.
    pub open spec fn wire(self) -> Seq<char> {
        match self {
            Country::US => "U_S"@,
            Country::BR => "B_R"@,
            Country::MX => "M_X"@,
            Country::AR => "A_R"@,
            Country::CO => "C_O"@,
        }
    }

    /// The name of the variant on the wire.
    pub fn as_str(&self) -> (name: &'static str)
        ensures
            name@ == self.wire(),
    {
        match self {
            Country::US => "U_S",
            Country::BR => "B_R",
            Country::MX => "M_X",
            Country::AR => "A_R",
            Country::CO => "C_O",
        }
    }
}

impl ToJson for Country {
    open spec fn json(&self) -> JsonView {
        JsonView::Str(self.wire())
    }

    fn to_json(&self) -> (doc: Json) {
        Json::string(self.as_str())
    }
}

#[derive(Debug, Clone)]
pub struct PaginationParams {
    pub limit: Option<String>,
    pub offset: Option<String>,
    pub starting_after: Option<String>,
    pub ending_before: Option<String>,
}

#[derive(Debug, Clone)]
pub struct PaginationMetadata {
    pub has_more: bool,
    pub next_page: String,
    pub prev_page: String,
}

#[derive(Debug, Clone, Copy, PartialEq, Eq)]
pub enum ArgentinaTransfers {
    CVU,
    CBU,
    ALIAS,
}

impl ArgentinaTransfers {
    /// The name of the variant on the wire.
    pub open spec fn wire(self) -> Seq<char> {
        match self {
            ArgentinaTransfers::CVU => "CVU"@,
            ArgentinaTransfers::CBU => "CBU"@,
            ArgentinaTransfers::ALIAS => "ALIAS"@,
        }
    }

    /// The name of the variant on the wire.
    pub fn as_str(&self) -> (name: &'static str)
        ensures
            name@ == self.wire(),
    {
        match self {
            ArgentinaTransfers::CVU => "CVU",
            ArgentinaTransfers::CBU => "CBU",
            ArgentinaTransfers::ALIAS => "ALIAS",
        }
    }
}

impl ToJson for ArgentinaTransfers {
    open spec fn json(&self) -> JsonView {
        JsonView::Str(self.wire())
    }

    fn to_json(&self) -> (doc: Json) {
        Json::string(self.as_str())
    }
}

#[derive(Debug, Clone, Copy, PartialEq, Eq)]
pub enum AchCopDocument {
    CC,
    CE,
    NIT,
    PASS,
    PEP,
}

impl AchCopDocument {
    /// The name of the variant on the wire.
    pub open spec fn wire(self) -> Seq<char> {
        match self {
            AchCopDocument::CC => "CC"@,
            AchCopDocument::CE => "CE"@,
            AchCopDocument::NIT => "NIT"@,
            AchCopDocument::PASS => "PASS"@,
            AchCopDocument::PEP => "PEP"@,
        }
    }

    /// The name of the variant on the wire.
    pub fn as_str(&self) -> (name: &'static str)
        ensures
            name@ == self.wire(),
    {
        match self {
            AchCopDocument::CC => "CC",
            AchCopDocument::CE => "CE",
            AchCopDocument::NIT => "NIT",
            AchCopDocument::PASS => "PASS",
            AchCopDocument::PEP => "PEP",
        }
    }
}

impl ToJson for AchCopDocument {
    open spec fn json(&self) -> JsonView {
        JsonView::Str(self.wire())
    }

    fn to_json(&self) -> (doc: Json) {
        Json::string(self.as_str())
    }
}

#[derive(Debug, Clone, Copy, PartialEq, Eq)]
pub enum TrackingStatus {
    Processing,
    OnHold,
    Completed,
}

impl TrackingStatus {
    /// The name of the variant on the wire.
    pub open spec fn wire(self) -> Seq<char> {
        match self {
            TrackingStatus::Processing => "processing"@,
            TrackingStatus::OnHold => "on_hold"@,
            TrackingStatus::Completed => "completed"@,
        }
    }

    /// The name of the variant on the wire.
    pub fn as_str(&self) -> (name: &'static str)
        ensures
            name@ == self.wire(),
    {
        match self {
            TrackingStatus::Processing => "processing",
            TrackingStatus::OnHold => "on_hold",
            TrackingStatus::Completed => "completed",
        }
    }
}

impl ToJson for TrackingStatus {
    open spec fn json(&self) -> JsonView {
        JsonView::Str(self.wire())
    }

    fn to_json(&self) -> (doc: Json) {
        Json::string(self.as_str())
    }
}

#[derive(Debug, Clone, Copy, PartialEq, Eq)]
pub enum EstimatedTimeOfArrival {
    FiveMin,
    ThirtyMin,
    TwoHours,
    OneBusinessDay,
    TwoBusinessDays,
    FiveBusinessDays,
}

impl EstimatedTimeOfArrival {
    /// The name of the variant on the wire.
    pub open spec fn wire(self) -> Seq<char> {
        match self {
            EstimatedTimeOfArrival::FiveMin => "5_min"@,
            EstimatedTimeOfArrival::ThirtyMin => "30_min"@,
            EstimatedTimeOfArrival::TwoHours => "2_hours"@,
            EstimatedTimeOfArrival::OneBusinessDay => "1_business_day"@,
            EstimatedTimeOfArrival::TwoBusinessDays => "2_business_days"@,
            EstimatedTimeOfArrival::FiveBusinessDays => "5_business_days"@,
        }
    }

    /// The name of the variant on the wire.
    pub fn as_str(&self) -> (name: &'static str)
        ensures
            name@ == self.wire(),
    {
        match self {
            EstimatedTimeOfArrival::FiveMin => "5_min",
            EstimatedTimeOfArrival::ThirtyMin => "30_min",
            EstimatedTimeOfArrival::TwoHours => "2_hours",
            EstimatedTimeOfArrival::OneBusinessDay => "1_business_day",
            EstimatedTimeOfArrival::TwoBusinessDays => "2_business_days",
            EstimatedTimeOfArrival::FiveBusinessDays => "5_business_days",
        }
    }
}

impl ToJson for EstimatedTimeOfArrival {
    open spec fn json(&self) -> JsonView {
        JsonView::Str(self.wire())
    }

    fn to_json(&self) -> (doc: Json) {
        Json::string(self.as_str())
    }
}

#[derive(Debug, Clone)]
pub struct PayinTrackingTransaction {
    pub step: TrackingStatus,
    pub status: Option<String>,
    pub external_id: Option<String>,
    pub completed_at: Option<String>,
    pub sender_name: Option<String>,
    pub sender_tax_id: Option<String>,
    pub sender_bank_code: Option<String>,
    pub sender_account_number: Option<String>,
    pub trace_number: Option<String>,
    pub transaction_reference: Option<String>,
    pub description: Option<String>,
}

#[derive(Debug, Clone)]
pub struct PayinTrackingPayment {
    pub step: TrackingStatus,
    pub provider_name: Option<String>,
    pub completed_at: Option<String>,
}

#[derive(Debug, Clone)]
pub struct PayinTrackingComplete {
    pub step: TrackingStatus,
    pub transaction_hash: Option<String>,
    pub completed_at: Option<String>,
}

#[derive(Debug, Clone)]
pub struct PayinTrackingPartnerFee {
    pub step: TrackingStatus,
    pub transaction_hash: Option<String>,
    pub completed_at: Option<String>,
}

#[derive(Debug, Clone)]
pub struct PayoutTrackingTransaction {
    pub step: TrackingStatus,
    pub status: String,
    pub transaction_hash: Option<String>,
    pub completed_at: Option<String>,
}

#[derive(Debug, Clone)]
pub struct PayoutTrackingPayment {
    pub step: TrackingStatus,
    pub provider_name: Option<String>,
    pub provider_transaction_id: Option<String>,
    pub provider_status: Option<String>,
    pub recipient_name: Option<String>,
    pub recipient_tax_id: Option<String>,
    pub recipient_bank_code: Option<String>,
    pub recipient_branch_code: Option<String>,
    pub recipient_account_number: Option<String>,
    pub recipient_account_type: Option<String>,
    pub estimated_time_of_arrival: Option<EstimatedTimeOfArrival>,
    pub completed_at: Option<String>,
}

#[derive(Debug, Clone)]
pub struct PayoutTrackingLiquidity {
    pub step: TrackingStatus,
    pub provider_transaction_id: Option<String>,
    pub provider_status: Option<String>,
    pub estimated_time_of_arrival: Option<EstimatedTimeOfArrival>,
    pub completed_at: Option<String>,
}

#[derive(Debug, Clone)]
pub struct PayoutTrackingComplete {
    pub step: TrackingStatus,
    pub status: Option<String>,
    pub transaction_hash: Option<String>,
    pub completed_at: Option<String>,
}

#[derive(Debug, Clone)]
pub struct PayoutTrackingPartnerFee {
    pub step: TrackingStatus,
    pub transaction_hash: Option<String>,
    pub completed_at: Option<String>,
}

#[derive(Debug, Clone, Copy, PartialEq, Eq)]
pub enum PayinPaymentMethod {
    Ach,
    Wire,
    Pix,
    Spei,
    Transfers,
    Pse,
}

impl PayinPaymentMethod {
    /// The name of the variant on the wire.
    pub open spec fn wire(self) -> Seq<char> {
        match self {
            PayinPaymentMethod::Ach => "ach"@,
            PayinPaymentMethod::Wire => "wire"@,
            PayinPaymentMethod::Pix => "pix"@,
            PayinPaymentMethod::Spei => "spei"@,
            PayinPaymentMethod::Transfers => "transfers"@,
            PayinPaymentMethod::Pse => "pse"@,
        }
    }

    /// The name of the variant on the wire.
    pub fn as_str(&self) -> (name: &'static str)
        ensures
            name@ == self.wire(),
    {
        match self {
            PayinPaymentMethod::Ach => "ach",
            PayinPaymentMethod::Wire => "wire",
            PayinPaymentMethod::Pix => "pix",
            PayinPaymentMethod::Spei => "spei",
            PayinPaymentMethod::Transfers => "transfers",
            PayinPaymentMethod::Pse => "pse",
        }
    }
}

impl ToJson for PayinPaymentMethod {
    open spec fn json(&self) -> JsonView {
        JsonView::Str(self.wire())
    }

    fn to_json(&self) -> (doc: Json) {
        Json::string(self.as_str())
    }
}

#[derive(Debug, Clone)]
pub struct PayerRules {
    pub pix_allowed_tax_ids: Option<Vec<String>>,
    pub transfers_allowed_tax_id: Option<String>,
    pub pse_allowed_tax_ids: Option<Vec<String>>,
    pub pse_full_name: Option<String>,
    pub pse_document_type: Option<AchCopDocument>,
    pub pse_document_number: Option<String>,
    pub pse_email: Option<String>,
    pub pse_phone: Option<String>,
    pub pse_bank_code: Option<String>,
}

/// The query that a list call appends to its path: `limit` and `offset`, each only where
/// it is present, after a `?` and with `&` between them; nothing where neither is.
pub open spec fn query_string(params: Option<PaginationParams>) -> Seq<char> {
    match params {
        Some(PaginationParams { limit: Some(limit), offset: Some(offset), .. }) => "?"@
            + "limit="@ + limit@ + "&"@ + "offset="@ + offset@,
        Some(PaginationParams { limit: Some(limit), offset: None, .. }) => "?"@ + "limit="@
            + limit@,
        Some(PaginationParams { limit: None, offset: Some(offset), .. }) => "?"@ + "offset="@
            + offset@,
        _ => Seq::empty(),
    }
}

/// Writes the query of a list call.
pub fn pagination_query(params: &Option<PaginationParams>) -> (query: String)
    ensures
        query@ == query_string(*params),
{
    let mut query = String::new();
    if let Some(given) = params {
        if let Some(limit) = &given.limit {
            query = query.concat("?").concat("limit=").concat(limit.as_str());
        }
        if let Some(offset) = &given.offset {
            let opener = if given.limit.is_some() {
                "&"
            } else {
                "?"
            };
            query = query.concat(opener).concat("offset=").concat(offset.as_str());
        }
    }
    assert(query@ =~= query_string(*params));
    query
}

/// A list call has no query at all exactly where it has neither a limit nor an offset,
/// whatever else its parameters hold.
pub proof fn lemma_query_absent(params: Option<PaginationParams>)
    ensures
        query_string(params).len() == 0 <==> (params matches Some(given) ==> given.limit is None
            && given.offset is None),
{
    reveal_strlit("?");
}

/// A list call with a limit and no offset has the query `?limit=` followed by the limit,
/// and nothing more.
pub proof fn lemma_query_limit_alone(params: PaginationParams)
    requires
        params.limit is Some,
        params.offset is None,
    ensures
        query_string(Some(params)) == "?limit="@ + params.limit->Some_0@,
{
    reveal_strlit("?");
    reveal_strlit("limit=");
    reveal_strlit("?limit=");
    assert("?"@ + "limit="@ =~= "?limit="@);
}

/// A list call with both has the limit first and the offset after an `&`.
pub proof fn lemma_query_both(params: PaginationParams)
    requires
        params.limit is Some,
        params.offset is Some,
    ensures
        query_string(Some(params)) == "?limit="@ + params.limit->Some_0@ + "&offset="@
            + params.offset->Some_0@,
{
    reveal_strlit("?");
    reveal_strlit("limit=");
    reveal_strlit("?limit=");
    reveal_strlit("&");
    reveal_strlit("offset=");
    reveal_strlit("&offset=");
    assert("?"@ + "limit="@ =~= "?limit="@);
    assert("&"@ + "offset="@ =~= "&offset="@);
    assert(query_string(Some(params)) =~= "?limit="@ + params.limit->Some_0@ + "&offset="@
        + params.offset->Some_0@);
}

} // verus!

//! Receivers and their KYC data.

use crate::client::{BlindPay, ClientView};
use crate::http::{HttpMethod, HttpRequest};
use crate::json::{Json, JsonView, MemberView, ObjectBuilder, ToJson};
use crate::resources::bank_accounts::BankAccountsResource;
use crate::types::{AccountClass, Country};
use vstd::prelude::*;
use vstd::string::*;

verus! {

#[derive(Debug, Clone, Copy, PartialEq, Eq)]
pub enum ProofOfAddressDocType {
    UtilityBill,
    BankStatement,
    RentalAgreement,
    TaxDocument,
    GovernmentCorrespondence,
}

impl ProofOfAddressDocType {
    /// The name of the variant on the wire.
    pub open spec fn wire(self) -> Seq<char> {
        match self {
            ProofOfAddressDocType::UtilityBill => "UTILITY_BILL"@,
            ProofOfAddressDocType::BankStatement => "BANK_STATEMENT"@,
            ProofOfAddressDocType::RentalAgreement => "RENTAL_AGREEMENT"@,
            ProofOfAddressDocType::TaxDocument => "TAX_DOCUMENT"@,
            ProofOfAddressDocType::GovernmentCorrespondence => "GOVERNMENT_CORRESPONDENCE"@,
        }
    }

    /// The name of the variant on the wire.
    pub fn as_str(&self) -> (name: &'static str)
        ensures
            name@ == self.wire(),
    {
        match self {
            ProofOfAddressDocType::UtilityBill => "UTILITY_BILL",
            ProofOfAddressDocType::BankStatement => "BANK_STATEMENT",
            ProofOfAddressDocType::RentalAgreement => "RENTAL_AGREEMENT",
            ProofOfAddressDocType::TaxDocument => "TAX_DOCUMENT",
            ProofOfAddressDocType::GovernmentCorrespondence => "GOVERNMENT_CORRESPONDENCE",
        }
    }
}

impl ToJson for ProofOfAddressDocType {
    open spec fn json(&self) -> JsonView {
        JsonView::Str(self.wire())
    }

    fn to_json(&self) -> (doc: Json) {
        Json::string(self.as_str())
    }
}

#[derive(Debug, Clone, Copy, PartialEq, Eq)]
pub enum PurposeOfTransactions {
    BusinessTransactions,
    CharitableDonations,
    InvestmentPurposes,
    PaymentsToFriendsOrFamilyAbroad,
    PersonalOrLivingExpenses,
    ProtectWealth,
    PurchaseGoodAndServices,
    ReceivePaymentForFreelancing,
    ReceiveSalary,
    Other,
}

impl PurposeOfTransactions {
    /// The name of the variant on the wire.
    pub open spec fn wire(self) -> Seq<char> {
        match self {
            PurposeOfTransactions::BusinessTransactions => "business_transactions"@,
            PurposeOfTransactions::CharitableDonations => "charitable_donations"@,
            PurposeOfTransactions::InvestmentPurposes => "investment_purposes"@,
            PurposeOfTransactions::PaymentsToFriendsOrFamilyAbroad => {
                "payments_to_friends_or_family_abroad"@
            },
            PurposeOfTransactions::PersonalOrLivingExpenses => "personal_or_living_expenses"@,
            PurposeOfTransactions::ProtectWealth => "protect_wealth"@,
            PurposeOfTransactions::PurchaseGoodAndServices => "purchase_good_and_services"@,
            PurposeOfTransactions::ReceivePaymentForFreelancing => {
                "receive_payment_for_freelancing"@
            },
            PurposeOfTransactions::ReceiveSalary => "receive_salary"@,
            PurposeOfTransactions::Other => "other"@,
        }
    }

    /// The name of the variant on the wire.
    pub fn as_str(&self) -> (name: &'static str)
        ensures
            name@ == self.wire(),
    {
        match self {
            PurposeOfTransactions::BusinessTransactions => "business_transactions",
            PurposeOfTransactions::CharitableDonations => "charitable_donations",
            PurposeOfTransactions::InvestmentPurposes => "investment_purposes",
            PurposeOfTransactions::PaymentsToFriendsOrFamilyAbroad => {
                "payments_to_friends_or_family_abroad"
            },
            PurposeOfTransactions::PersonalOrLivingExpenses => "personal_or_living_expenses",
            PurposeOfTransactions::ProtectWealth => "protect_wealth",
            PurposeOfTransactions::PurchaseGoodAndServices => "purchase_good_and_services",
            PurposeOfTransactions::ReceivePaymentForFreelancing => {
                "receive_payment_for_freelancing"
            },
            PurposeOfTransactions::ReceiveSalary => "receive_salary",
            PurposeOfTransactions::Other => "other",
        }
    }
}

impl ToJson for PurposeOfTransactions {
    open spec fn json(&self) -> JsonView {
        JsonView::Str(self.wire())
    }

    fn to_json(&self) -> (doc: Json) {
        Json::string(self.as_str())
    }
}

#[derive(Debug, Clone, Copy, PartialEq, Eq)]
pub enum SourceOfFundsDocType {
    BusinessIncome,
    GamblingProceeds,
    Gifts,
    GovernmentBenefits,
    Inheritance,
    InvestmentLoans,
    PensionRetirement,
    Salary,
    SaleOfAssetsRealEstate,
    Savings,
    Esops,
    InvestmentProceeds,
    SomeoneElseFunds,
}

impl SourceOfFundsDocType {
    /// The name of the variant on the wire.
    pub open spec fn wire(self) -> Seq<char> {
        match self {
            SourceOfFundsDocType::BusinessIncome => "business_income"@,
            SourceOfFundsDocType::GamblingProceeds => "gambling_proceeds"@,
            SourceOfFundsDocType::Gifts => "gifts"@,
            SourceOfFundsDocType::GovernmentBenefits => "government_benefits"@,
            SourceOfFundsDocType::Inheritance => "inheritance"@,
            SourceOfFundsDocType::InvestmentLoans => "investment_loans"@,
            SourceOfFundsDocType::PensionRetirement => "pension_retirement"@,
            SourceOfFundsDocType::Salary => "salary"@,
            SourceOfFundsDocType::SaleOfAssetsRealEstate => "sale_of_assets_real_estate"@,
            SourceOfFundsDocType::Savings => "savings"@,
            SourceOfFundsDocType::Esops => "esops"@,
            SourceOfFundsDocType::InvestmentProceeds => "investment_proceeds"@,
            SourceOfFundsDocType::SomeoneElseFunds => "someone_else_funds"@,
        }
    }

    /// The name of the variant on the wire.
    pub fn as_str(&self) -> (name: &'static str)
        ensures
            name@ == self.wire(),
    {
        match self {
            SourceOfFundsDocType::BusinessIncome => "business_income",
            SourceOfFundsDocType::GamblingProceeds => "gambling_proceeds",
            SourceOfFundsDocType::Gifts => "gifts",
            SourceOfFundsDocType::GovernmentBenefits => "government_benefits",
            SourceOfFundsDocType::Inheritance => "inheritance",
            SourceOfFundsDocType::InvestmentLoans => "investment_loans",
            SourceOfFundsDocType::PensionRetirement => "pension_retirement",
            SourceOfFundsDocType::Salary => "salary",
            SourceOfFundsDocType::SaleOfAssetsRealEstate => "sale_of_assets_real_estate",
            SourceOfFundsDocType::Savings => "savings",
            SourceOfFundsDocType::Esops => "esops",
            SourceOfFundsDocType::InvestmentProceeds => "investment_proceeds",
            SourceOfFundsDocType::SomeoneElseFunds => "someone_else_funds",
        }
    }
}

impl ToJson for SourceOfFundsDocType {
    open spec fn json(&self) -> JsonView {
        JsonView::Str(self.wire())
    }

    fn to_json(&self) -> (doc: Json) {
        Json::string(self.as_str())
    }
}

#[derive(Debug, Clone, Copy, PartialEq, Eq)]
pub enum IdentificationDocument {
    Passport,
    IdCard,
    Drivers,
}

impl IdentificationDocument {
    /// The name of the variant on the wire.
    pub open spec fn wire(self) -> Seq<char> {
        match self {
            IdentificationDocument::Passport => "PASSPORT"@,
            IdentificationDocument::IdCard => "ID_CARD"@,
            IdentificationDocument::Drivers => "DRIVERS"@,
        }
    }

    /// The name of the variant on the wire.
    pub fn as_str(&self) -> (name: &'static str)
        ensures
            name@ == self.wire(),
    {
        match self {
            IdentificationDocument::Passport => "PASSPORT",
            IdentificationDocument::IdCard => "ID_CARD",
            IdentificationDocument::Drivers => "DRIVERS",
        }
    }
}

impl ToJson for IdentificationDocument {
    open spec fn json(&self) -> JsonView {
        JsonView::Str(self.wire())
    }

    fn to_json(&self) -> (doc: Json) {
        Json::string(self.as_str())
    }
}

#[derive(Debug, Clone, Copy, PartialEq, Eq)]
pub enum KycType {
    Light,
    Standard,
    Enhanced,
}

impl KycType {
    /// The name of the variant on the wire.
    pub open spec fn wire(self) -> Seq<char> {
        match self {
            KycType::Light => "light"@,
            KycType::Standard => "standard"@,
            KycType::Enhanced => "enhanced"@,
        }
    }

    /// The name of the variant on the wire.
    pub fn as_str(&self) -> (name: &'static str)
        ensures
            name@ == self.wire(),
    {
        match self {
            KycType::Light => "light",
            KycType::Standard => "standard",
            KycType::Enhanced => "enhanced",
        }
    }
}

impl ToJson for KycType {
    open spec fn json(&self) -> JsonView {
        JsonView::Str(self.wire())
    }

    fn to_json(&self) -> (doc: Json) {
        Json::string(self.as_str())
    }
}

#[derive(Debug, Clone, Copy, PartialEq, Eq)]
pub enum OwnerRole {
    BeneficialControlling,
    BeneficialOwner,
    ControllingPerson,
}

impl OwnerRole {
    /// The name of the variant on the wire.
    pub open spec fn wire(self) -> Seq<char> {
        match self {
            OwnerRole::BeneficialControlling => "beneficial_controlling"@,
            OwnerRole::BeneficialOwner => "beneficial_owner"@,
            OwnerRole::ControllingPerson => "controlling_person"@,
        }
    }

    /// The name of the variant on the wire.
    pub fn as_str(&self) -> (name: &'static str)
        ensures
            name@ == self.wire(),
    {
        match self {
            OwnerRole::BeneficialControlling => "beneficial_controlling",
            OwnerRole::BeneficialOwner => "beneficial_owner",
            OwnerRole::ControllingPerson => "controlling_person",
        }
    }
}

impl ToJson for OwnerRole {
    open spec fn json(&self) -> JsonView {
        JsonView::Str(self.wire())
    }

    fn to_json(&self) -> (doc: Json) {
        Json::string(self.as_str())
    }
}

#[derive(Debug, Clone)]
pub struct Owner {
    pub id: Option<String>,
    pub role: OwnerRole,
    pub first_name: String,
    pub last_name: String,
    pub date_of_birth: String,
    pub tax_id: String,
    pub address_line_1: String,
    pub address_line_2: Option<String>,
    pub city: String,
    pub state_province_region: String,
    pub country: Country,
    pub postal_code: String,
    pub id_doc_country: Country,
    pub id_doc_type: IdentificationDocument,
    pub id_doc_front_file: String,
    pub id_doc_back_file: Option<String>,
    pub proof_of_address_doc_type: ProofOfAddressDocType,
    pub proof_of_address_doc_file: String,
}

impl ToJson for Owner {
    open spec fn json(&self) -> JsonView {
        JsonView::Object(
            Seq::<MemberView>::empty()
                .push(MemberView { name: "id"@, value: self.id.json() })
                .push(MemberView { name: "role"@, value: self.role.json() })
                .push(MemberView { name: "first_name"@, value: self.first_name.json() })
                .push(MemberView { name: "last_name"@, value: self.last_name.json() })
                .push(MemberView { name: "date_of_birth"@, value: self.date_of_birth.json() })
                .push(MemberView { name: "tax_id"@, value: self.tax_id.json() })
                .push(MemberView { name: "address_line_1"@, value: self.address_line_1.json() })
                .push(MemberView { name: "address_line_2"@, value: self.address_line_2.json() })
                .push(MemberView { name: "city"@, value: self.city.json() })
                .push(
                    MemberView {
                        name: "state_province_region"@,
                        value: self.state_province_region.json(),
                    },
                )
                .push(MemberView { name: "country"@, value: self.country.json() })
                .push(MemberView { name: "postal_code"@, value: self.postal_code.json() })
                .push(MemberView { name: "id_doc_country"@, value: self.id_doc_country.json() })
                .push(MemberView { name: "id_doc_type"@, value: self.id_doc_type.json() })
                .push(
                    MemberView {
                        name: "id_doc_front_file"@,
                        value: self.id_doc_front_file.json(),
                    },
                )
                .push(MemberView { name: "id_doc_back_file"@, value: self.id_doc_back_file.json() })
                .push(
                    MemberView {
                        name: "proof_of_address_doc_type"@,
                        value: self.proof_of_address_doc_type.json(),
                    },
                )
                .push(
                    MemberView {
                        name: "proof_of_address_doc_file"@,
                        value: self.proof_of_address_doc_file.json(),
                    },
                )
        )
    }

    fn to_json(&self) -> (doc: Json) {
        ObjectBuilder::new()
            .field("id", self.id.to_json())
            .field("role", self.role.to_json())
            .field("first_name", self.first_name.to_json())
            .field("last_name", self.last_name.to_json())
            .field("date_of_birth", self.date_of_birth.to_json())
            .field("tax_id", self.tax_id.to_json())
            .field("address_line_1", self.address_line_1.to_json())
            .field("address_line_2", self.address_line_2.to_json())
            .field("city", self.city.to_json())
            .field("state_province_region", self.state_province_region.to_json())
            .field("country", self.country.to_json())
            .field("postal_code", self.postal_code.to_json())
            .field("id_doc_country", self.id_doc_country.to_json())
            .field("id_doc_type", self.id_doc_type.to_json())
            .field("id_doc_front_file", self.id_doc_front_file.to_json())
            .field("id_doc_back_file", self.id_doc_back_file.to_json())
            .field("proof_of_address_doc_type", self.proof_of_address_doc_type.to_json())
            .field("proof_of_address_doc_file", self.proof_of_address_doc_file.to_json())
            .build()
    }
}

#[derive(Debug, Clone)]
pub struct KycWarning {
    pub code: Option<String>,
    pub message: Option<String>,
    pub resolution_status: Option<String>,
    pub warning_id: Option<String>,
}

#[derive(Debug, Clone)]
pub struct ReceiverLimits {
    pub per_transaction: u64,
    pub daily: u64,
    pub monthly: u64,
}

#[derive(Debug, Clone)]
pub struct Receiver {
    pub id: String,
    pub is_tos_accepted: bool,
    pub account_type: AccountClass,
    pub kyc_type: KycType,
    pub kyc_status: String,
    pub kyc_warnings: Option<Vec<KycWarning>>,
    pub email: String,
    pub tax_id: String,
    pub address_line_1: String,
    pub address_line_2: Option<String>,
    pub city: String,
    pub state_province_region: String,
    pub country: Country,
    pub postal_code: String,
    pub ip_address: Option<String>,
    pub image_url: Option<String>,
    pub phone_number: Option<String>,
    pub proof_of_address_doc_type: ProofOfAddressDocType,
    pub proof_of_address_doc_file: String,
    pub first_name: Option<String>,
    pub last_name: Option<String>,
    pub date_of_birth: Option<String>,
    pub id_doc_country: Option<Country>,
    pub id_doc_type: Option<IdentificationDocument>,
    pub id_doc_front_file: Option<String>,
    pub id_doc_back_file: Option<String>,
    pub legal_name: Option<String>,
    pub alternate_name: Option<String>,
    pub formation_date: Option<String>,
    pub website: Option<String>,
    pub owners: Option<Vec<Owner>>,
    pub incorporation_doc_file: Option<String>,
    pub proof_of_ownership_doc_file: Option<String>,
    pub source_of_funds_doc_type: Option<String>,
    pub source_of_funds_doc_file: Option<String>,
    pub individual_holding_doc_front_file: Option<String>,
    pub purpose_of_transactions: Option<PurposeOfTransactions>,
    pub purpose_of_transactions_explanation: Option<String>,
    pub aiprise_validation_key: String,
    pub instance_id: String,
    pub external_id: Option<String>,
    pub tos_id: Option<String>,
    pub is_fbo: Option<bool>,
    pub created_at: String,
    pub updated_at: String,
    pub limit: ReceiverLimits,
}

#[derive(Debug, Clone)]
pub struct CreateIndividualWithStandardKycInput {
    pub external_id: Option<String>,
    pub address_line_1: String,
    pub address_line_2: Option<String>,
    pub city: String,
    pub country: Country,
    pub date_of_birth: String,
    pub email: String,
    pub first_name: String,
    pub phone_number: Option<String>,
    pub id_doc_country: Country,
    pub id_doc_front_file: String,
    pub id_doc_type: IdentificationDocument,
    pub id_doc_back_file: Option<String>,
    pub last_name: String,
    pub postal_code: String,
    pub proof_of_address_doc_file: String,
    pub proof_of_address_doc_type: ProofOfAddressDocType,
    pub state_province_region: String,
    pub tax_id: String,
    pub tos_id: String,
}

impl ToJson for CreateIndividualWithStandardKycInput {
    open spec fn json(&self) -> JsonView {
        JsonView::Object(
            Seq::<MemberView>::empty()
                .push(MemberView { name: "external_id"@, value: self.external_id.json() })
                .push(MemberView { name: "address_line_1"@, value: self.address_line_1.json() })
                .push(MemberView { name: "address_line_2"@, value: self.address_line_2.json() })
                .push(MemberView { name: "city"@, value: self.city.json() })
                .push(MemberView { name: "country"@, value: self.country.json() })
                .push(MemberView { name: "date_of_birth"@, value: self.date_of_birth.json() })
                .push(MemberView { name: "email"@, value: self.email.json() })
                .push(MemberView { name: "first_name"@, value: self.first_name.json() })
                .push(MemberView { name: "phone_number"@, value: self.phone_number.json() })
                .push(MemberView { name: "id_doc_country"@, value: self.id_doc_country.json() })
                .push(
                    MemberView {
                        name: "id_doc_front_file"@,
                        value: self.id_doc_front_file.json(),
                    },
                )
                .push(MemberView { name: "id_doc_type"@, value: self.id_doc_type.json() })
                .push(MemberView { name: "id_doc_back_file"@, value: self.id_doc_back_file.json() })
                .push(MemberView { name: "last_name"@, value: self.last_name.json() })
                .push(MemberView { name: "postal_code"@, value: self.postal_code.json() })
                .push(
                    MemberView {
                        name: "proof_of_address_doc_file"@,
                        value: self.proof_of_address_doc_file.json(),
                    },
                )
                .push(
                    MemberView {
                        name: "proof_of_address_doc_type"@,
                        value: self.proof_of_address_doc_type.json(),
                    },
                )
                .push(
                    MemberView {
                        name: "state_province_region"@,
                        value: self.state_province_region.json(),
                    },
                )
                .push(MemberView { name: "tax_id"@, value: self.tax_id.json() })
                .push(MemberView { name: "tos_id"@, value: self.tos_id.json() })
        )
    }

    fn to_json(&self) -> (doc: Json) {
        ObjectBuilder::new()
            .field("external_id", self.external_id.to_json())
            .field("address_line_1", self.address_line_1.to_json())
            .field("address_line_2", self.address_line_2.to_json())
            .field("city", self.city.to_json())
            .field("country", self.country.to_json())
            .field("date_of_birth", self.date_of_birth.to_json())
            .field("email", self.email.to_json())
            .field("first_name", self.first_name.to_json())
            .field("phone_number", self.phone_number.to_json())
            .field("id_doc_country", self.id_doc_country.to_json())
            .field("id_doc_front_file", self.id_doc_front_file.to_json())
            .field("id_doc_type", self.id_doc_type.to_json())
            .field("id_doc_back_file", self.id_doc_back_file.to_json())
            .field("last_name", self.last_name.to_json())
            .field("postal_code", self.postal_code.to_json())
            .field("proof_of_address_doc_file", self.proof_of_address_doc_file.to_json())
            .field("proof_of_address_doc_type", self.proof_of_address_doc_type.to_json())
            .field("state_province_region", self.state_province_region.to_json())
            .field("tax_id", self.tax_id.to_json())
            .field("tos_id", self.tos_id.to_json())
            .build()
    }
}

#[derive(Debug, Clone)]
pub struct CreateIndividualWithEnhancedKycInput {
    pub external_id: Option<String>,
    pub address_line_1: String,
    pub address_line_2: Option<String>,
    pub city: String,
    pub country: Country,
    pub date_of_birth: String,
    pub email: String,
    pub first_name: String,
    pub id_doc_country: Country,
    pub id_doc_front_file: String,
    pub id_doc_type: IdentificationDocument,
    pub id_doc_back_file: Option<String>,
    pub individual_holding_doc_front_file: String,
    pub last_name: String,
    pub postal_code: String,
    pub phone_number: Option<String>,
    pub proof_of_address_doc_file: String,
    pub proof_of_address_doc_type: ProofOfAddressDocType,
    pub purpose_of_transactions: PurposeOfTransactions,
    pub source_of_funds_doc_file: String,
    pub source_of_funds_doc_type: SourceOfFundsDocType,
    pub purpose_of_transactions_explanation: Option<String>,
    pub state_province_region: String,
    pub tax_id: String,
    pub tos_id: String,
}

impl ToJson for CreateIndividualWithEnhancedKycInput {
    open spec fn json(&self) -> JsonView {
        JsonView::Object(
            Seq::<MemberView>::empty()
                .push(MemberView { name: "external_id"@, value: self.external_id.json() })
                .push(MemberView { name: "address_line_1"@, value: self.address_line_1.json() })
                .push(MemberView { name: "address_line_2"@, value: self.address_line_2.json() })
                .push(MemberView { name: "city"@, value: self.city.json() })
                .push(MemberView { name: "country"@, value: self.country.json() })
                .push(MemberView { name: "date_of_birth"@, value: self.date_of_birth.json() })
                .push(MemberView { name: "email"@, value: self.email.json() })
                .push(MemberView { name: "first_name"@, value: self.first_name.json() })
                .push(MemberView { name: "id_doc_country"@, value: self.id_doc_country.json() })
                .push(
                    MemberView {
                        name: "id_doc_front_file"@,
                        value: self.id_doc_front_file.json(),
                    },
                )
                .push(MemberView { name: "id_doc_type"@, value: self.id_doc_type.json() })
                .push(MemberView { name: "id_doc_back_file"@, value: self.id_doc_back_file.json() })
                .push(
                    MemberView {
                        name: "individual_holding_doc_front_file"@,
                        value: self.individual_holding_doc_front_file.json(),
                    },
                )
                .push(MemberView { name: "last_name"@, value: self.last_name.json() })
                .push(MemberView { name: "postal_code"@, value: self.postal_code.json() })
                .push(MemberView { name: "phone_number"@, value: self.phone_number.json() })
                .push(
                    MemberView {
                        name: "proof_of_address_doc_file"@,
                        value: self.proof_of_address_doc_file.json(),
                    },
                )
                .push(
                    MemberView {
                        name: "proof_of_address_doc_type"@,
                        value: self.proof_of_address_doc_type.json(),
                    },
                )
                .push(
                    MemberView {
                        name: "purpose_of_transactions"@,
                        value: self.purpose_of_transactions.json(),
                    },
                )
                .push(
                    MemberView {
                        name: "source_of_funds_doc_file"@,
                        value: self.source_of_funds_doc_file.json(),
                    },
                )
                .push(
                    MemberView {
                        name: "source_of_funds_doc_type"@,
                        value: self.source_of_funds_doc_type.json(),
                    },
                )
                .push(
                    MemberView {
                        name: "purpose_of_transactions_explanation"@,
                        value: self.purpose_of_transactions_explanation.json(),
                    },
                )
                .push(
                    MemberView {
                        name: "state_province_region"@,
                        value: self.state_province_region.json(),
                    },
                )
                .push(MemberView { name: "tax_id"@, value: self.tax_id.json() })
                .push(MemberView { name: "tos_id"@, value: self.tos_id.json() })
        )
    }

    fn to_json(&self) -> (doc: Json) {
        ObjectBuilder::new()
            .field("external_id", self.external_id.to_json())
            .field("address_line_1", self.address_line_1.to_json())
            .field("address_line_2", self.address_line_2.to_json())
            .field("city", self.city.to_json())
            .field("country", self.country.to_json())
            .field("date_of_birth", self.date_of_birth.to_json())
            .field("email", self.email.to_json())
            .field("first_name", self.first_name.to_json())
            .field("id_doc_country", self.id_doc_country.to_json())
            .field("id_doc_front_file", self.id_doc_front_file.to_json())
            .field("id_doc_type", self.id_doc_type.to_json())
            .field("id_doc_back_file", self.id_doc_back_file.to_json())
            .field(
                "individual_holding_doc_front_file",
                self.individual_holding_doc_front_file.to_json(),
            )
            .field("last_name", self.last_name.to_json())
            .field("postal_code", self.postal_code.to_json())
            .field("phone_number", self.phone_number.to_json())
            .field("proof_of_address_doc_file", self.proof_of_address_doc_file.to_json())
            .field("proof_of_address_doc_type", self.proof_of_address_doc_type.to_json())
            .field("purpose_of_transactions", self.purpose_of_transactions.to_json())
            .field("source_of_funds_doc_file", self.source_of_funds_doc_file.to_json())
            .field("source_of_funds_doc_type", self.source_of_funds_doc_type.to_json())
            .field(
                "purpose_of_transactions_explanation",
                self.purpose_of_transactions_explanation.to_json(),
            )
            .field("state_province_region", self.state_province_region.to_json())
            .field("tax_id", self.tax_id.to_json())
            .field("tos_id", self.tos_id.to_json())
            .build()
    }
}

#[derive(Debug, Clone)]
pub struct CreateBusinessWithStandardKybInput {
    pub external_id: Option<String>,
    pub address_line_1: String,
    pub address_line_2: Option<String>,
    pub alternate_name: Option<String>,
    pub city: String,
    pub country: Country,
    pub email: String,
    pub formation_date: String,
    pub incorporation_doc_file: String,
    pub legal_name: String,
    pub owners: Vec<Owner>,
    pub postal_code: String,
    pub proof_of_address_doc_file: String,
    pub proof_of_address_doc_type: ProofOfAddressDocType,
    pub proof_of_ownership_doc_file: String,
    pub state_province_region: String,
    pub tax_id: String,
    pub tos_id: String,
    pub website: Option<String>,
}

impl ToJson for CreateBusinessWithStandardKybInput {
    open spec fn json(&self) -> JsonView {
        JsonView::Object(
            Seq::<MemberView>::empty()
                .push(MemberView { name: "external_id"@, value: self.external_id.json() })
                .push(MemberView { name: "address_line_1"@, value: self.address_line_1.json() })
                .push(MemberView { name: "address_line_2"@, value: self.address_line_2.json() })
                .push(MemberView { name: "alternate_name"@, value: self.alternate_name.json() })
                .push(MemberView { name: "city"@, value: self.city.json() })
                .push(MemberView { name: "country"@, value: self.country.json() })
                .push(MemberView { name: "email"@, value: self.email.json() })
                .push(MemberView { name: "formation_date"@, value: self.formation_date.json() })
                .push(
                    MemberView {
                        name: "incorporation_doc_file"@,
                        value: self.incorporation_doc_file.json(),
                    },
                )
                .push(MemberView { name: "legal_name"@, value: self.legal_name.json() })
                .push(MemberView { name: "owners"@, value: self.owners.json() })
                .push(MemberView { name: "postal_code"@, value: self.postal_code.json() })
                .push(
                    MemberView {
                        name: "proof_of_address_doc_file"@,
                        value: self.proof_of_address_doc_file.json(),
                    },
                )
                .push(
                    MemberView {
                        name: "proof_of_address_doc_type"@,
                        value: self.proof_of_address_doc_type.json(),
                    },
                )
                .push(
                    MemberView {
                        name: "proof_of_ownership_doc_file"@,
                        value: self.proof_of_ownership_doc_file.json(),
                    },
                )
                .push(
                    MemberView {
                        name: "state_province_region"@,
                        value: self.state_province_region.json(),
                    },
                )
                .push(MemberView { name: "tax_id"@, value: self.tax_id.json() })
                .push(MemberView { name: "tos_id"@, value: self.tos_id.json() })
                .push(MemberView { name: "website"@, value: self.website.json() })
        )
    }

    fn to_json(&self) -> (doc: Json) {
        ObjectBuilder::new()
            .field("external_id", self.external_id.to_json())
            .field("address_line_1", self.address_line_1.to_json())
            .field("address_line_2", self.address_line_2.to_json())
            .field("alternate_name", self.alternate_name.to_json())
            .field("city", self.city.to_json())
            .field("country", self.country.to_json())
            .field("email", self.email.to_json())
            .field("formation_date", self.formation_date.to_json())
            .field("incorporation_doc_file", self.incorporation_doc_file.to_json())
            .field("legal_name", self.legal_name.to_json())
            .field("owners", self.owners.to_json())
            .field("postal_code", self.postal_code.to_json())
            .field("proof_of_address_doc_file", self.proof_of_address_doc_file.to_json())
            .field("proof_of_address_doc_type", self.proof_of_address_doc_type.to_json())
            .field("proof_of_ownership_doc_file", self.proof_of_ownership_doc_file.to_json())
            .field("state_province_region", self.state_province_region.to_json())
            .field("tax_id", self.tax_id.to_json())
            .field("tos_id", self.tos_id.to_json())
            .field("website", self.website.to_json())
            .build()
    }
}

#[derive(Debug, Clone)]
pub struct UpdateReceiverInput {
    pub receiver_id: String,
    pub email: Option<String>,
    pub tax_id: Option<String>,
    pub address_line_1: Option<String>,
    pub address_line_2: Option<String>,
    pub city: Option<String>,
    pub state_province_region: Option<String>,
    pub country: Option<Country>,
    pub postal_code: Option<String>,
    pub ip_address: Option<String>,
    pub image_url: Option<String>,
    pub phone_number: Option<String>,
    pub proof_of_address_doc_type: Option<ProofOfAddressDocType>,
    pub proof_of_address_doc_file: Option<String>,
    pub first_name: Option<String>,
    pub last_name: Option<String>,
    pub date_of_birth: Option<String>,
    pub id_doc_country: Option<Country>,
    pub id_doc_type: Option<IdentificationDocument>,
    pub id_doc_front_file: Option<String>,
    pub id_doc_back_file: Option<String>,
    pub legal_name: Option<String>,
    pub alternate_name: Option<String>,
    pub formation_date: Option<String>,
    pub website: Option<String>,
    pub owners: Option<Vec<Owner>>,
    pub incorporation_doc_file: Option<String>,
    pub proof_of_ownership_doc_file: Option<String>,
    pub source_of_funds_doc_type: Option<SourceOfFundsDocType>,
    pub source_of_funds_doc_file: Option<String>,
    pub individual_holding_doc_front_file: Option<String>,
    pub purpose_of_transactions: Option<PurposeOfTransactions>,
    pub purpose_of_transactions_explanation: Option<String>,
    pub external_id: Option<String>,
    pub tos_id: Option<String>,
}

impl ToJson for UpdateReceiverInput {
    open spec fn json(&self) -> JsonView {
        JsonView::Object(
            Seq::<MemberView>::empty()
                .push(MemberView { name: "receiver_id"@, value: self.receiver_id.json() })
                .push(MemberView { name: "email"@, value: self.email.json() })
                .push(MemberView { name: "tax_id"@, value: self.tax_id.json() })
                .push(MemberView { name: "address_line_1"@, value: self.address_line_1.json() })
                .push(MemberView { name: "address_line_2"@, value: self.address_line_2.json() })
                .push(MemberView { name: "city"@, value: self.city.json() })
                .push(
                    MemberView {
                        name: "state_province_region"@,
                        value: self.state_province_region.json(),
                    },
                )
                .push(MemberView { name: "country"@, value: self.country.json() })
                .push(MemberView { name: "postal_code"@, value: self.postal_code.json() })
                .push(MemberView { name: "ip_address"@, value: self.ip_address.json() })
                .push(MemberView { name: "image_url"@, value: self.image_url.json() })
                .push(MemberView { name: "phone_number"@, value: self.phone_number.json() })
                .push(
                    MemberView {
                        name: "proof_of_address_doc_type"@,
                        value: self.proof_of_address_doc_type.json(),
                    },
                )
                .push(
                    MemberView {
                        name: "proof_of_address_doc_file"@,
                        value: self.proof_of_address_doc_file.json(),
                    },
                )
                .push(MemberView { name: "first_name"@, value: self.first_name.json() })
                .push(MemberView { name: "last_name"@, value: self.last_name.json() })
                .push(MemberView { name: "date_of_birth"@, value: self.date_of_birth.json() })
                .push(MemberView { name: "id_doc_country"@, value: self.id_doc_country.json() })
                .push(MemberView { name: "id_doc_type"@, value: self.id_doc_type.json() })
                .push(
                    MemberView {
                        name: "id_doc_front_file"@,
                        value: self.id_doc_front_file.json(),
                    },
                )
                .push(MemberView { name: "id_doc_back_file"@, value: self.id_doc_back_file.json() })
                .push(MemberView { name: "legal_name"@, value: self.legal_name.json() })
                .push(MemberView { name: "alternate_name"@, value: self.alternate_name.json() })
                .push(MemberView { name: "formation_date"@, value: self.formation_date.json() })
                .push(MemberView { name: "website"@, value: self.website.json() })
                .push(MemberView { name: "owners"@, value: self.owners.json() })
                .push(
                    MemberView {
                        name: "incorporation_doc_file"@,
                        value: self.incorporation_doc_file.json(),
                    },
                )
                .push(
                    MemberView {
                        name: "proof_of_ownership_doc_file"@,
                        value: self.proof_of_ownership_doc_file.json(),
                    },
                )
                .push(
                    MemberView {
                        name: "source_of_funds_doc_type"@,
                        value: self.source_of_funds_doc_type.json(),
                    },
                )
                .push(
                    MemberView {
                        name: "source_of_funds_doc_file"@,
                        value: self.source_of_funds_doc_file.json(),
                    },
                )
                .push(
                    MemberView {
                        name: "individual_holding_doc_front_file"@,
                        value: self.individual_holding_doc_front_file.json(),
                    },
                )
                .push(
                    MemberView {
                        name: "purpose_of_transactions"@,
                        value: self.purpose_of_transactions.json(),
                    },
                )
                .push(
                    MemberView {
                        name: "purpose_of_transactions_explanation"@,
                        value: self.purpose_of_transactions_explanation.json(),
                    },
                )
                .push(MemberView { name: "external_id"@, value: self.external_id.json() })
                .push(MemberView { name: "tos_id"@, value: self.tos_id.json() })
        )
    }

    fn to_json(&self) -> (doc: Json) {
        ObjectBuilder::new()
            .field("receiver_id", self.receiver_id.to_json())
            .field("email", self.email.to_json())
            .field("tax_id", self.tax_id.to_json())
            .field("address_line_1", self.address_line_1.to_json())
            .field("address_line_2", self.address_line_2.to_json())
            .field("city", self.city.to_json())
            .field("state_province_region", self.state_province_region.to_json())
            .field("country", self.country.to_json())
            .field("postal_code", self.postal_code.to_json())
            .field("ip_address", self.ip_address.to_json())
            .field("image_url", self.image_url.to_json())
            .field("phone_number", self.phone_number.to_json())
            .field("proof_of_address_doc_type", self.proof_of_address_doc_type.to_json())
            .field("proof_of_address_doc_file", self.proof_of_address_doc_file.to_json())
            .field("first_name", self.first_name.to_json())
            .field("last_name", self.last_name.to_json())
            .field("date_of_birth", self.date_of_birth.to_json())
            .field("id_doc_country", self.id_doc_country.to_json())
            .field("id_doc_type", self.id_doc_type.to_json())
            .field("id_doc_front_file", self.id_doc_front_file.to_json())
            .field("id_doc_back_file", self.id_doc_back_file.to_json())
            .field("legal_name", self.legal_name.to_json())
            .field("alternate_name", self.alternate_name.to_json())
            .field("formation_date", self.formation_date.to_json())
            .field("website", self.website.to_json())
            .field("owners", self.owners.to_json())
            .field("incorporation_doc_file", self.incorporation_doc_file.to_json())
            .field("proof_of_ownership_doc_file", self.proof_of_ownership_doc_file.to_json())
            .field("source_of_funds_doc_type", self.source_of_funds_doc_type.to_json())
            .field("source_of_funds_doc_file", self.source_of_funds_doc_file.to_json())
            .field(
                "individual_holding_doc_front_file",
                self.individual_holding_doc_front_file.to_json(),
            )
            .field("purpose_of_transactions", self.purpose_of_transactions.to_json())
            .field(
                "purpose_of_transactions_explanation",
                self.purpose_of_transactions_explanation.to_json(),
            )
            .field("external_id", self.external_id.to_json())
            .field("tos_id", self.tos_id.to_json())
            .build()
    }
}

#[derive(Debug, Clone)]
pub struct CreateReceiverResponse {
    pub id: String,
}

#[derive(Debug, Clone)]
pub struct GetReceiverLimitsResponse {
    pub limits: ReceiverLimitsBreakdown,
}

#[derive(Debug, Clone)]
pub struct ReceiverLimitsBreakdown {
    pub payin: LimitValues,
    pub payout: LimitValues,
}

#[derive(Debug, Clone)]
pub struct LimitValues {
    pub daily: u64,
    pub monthly: u64,
}

#[derive(Debug, Clone, Copy, PartialEq, Eq)]
pub enum LimitIncreaseRequestStatus {
    InReview,
    Approved,
    Rejected,
}

impl LimitIncreaseRequestStatus {
    /// The name of the variant on the wire.
    pub open spec fn wire(self) -> Seq<char> {
        match self {
            LimitIncreaseRequestStatus::InReview => "in_review"@,
            LimitIncreaseRequestStatus::Approved => "approved"@,
            LimitIncreaseRequestStatus::Rejected => "rejected"@,
        }
    }

    /// The name of the variant on the wire.
    pub fn as_str(&self) -> (name: &'static str)
        ensures
            name@ == self.wire(),
    {
        match self {
            LimitIncreaseRequestStatus::InReview => "in_review",
            LimitIncreaseRequestStatus::Approved => "approved",
            LimitIncreaseRequestStatus::Rejected => "rejected",
        }
    }
}

impl ToJson for LimitIncreaseRequestStatus {
    open spec fn json(&self) -> JsonView {
        JsonView::Str(self.wire())
    }

    fn to_json(&self) -> (doc: Json) {
        Json::string(self.as_str())
    }
}

#[derive(Debug, Clone, Copy, PartialEq, Eq)]
pub enum LimitIncreaseRequestSupportingDocumentType {
    IndividualBankStatement,
    IndividualTaxReturn,
    IndividualProofOfIncome,
    BusinessBankStatement,
    BusinessFinancialStatements,
    BusinessTaxReturn,
}

impl LimitIncreaseRequestSupportingDocumentType {
    /// The name of the variant on the wire.
    pub open spec fn wire(self) -> Seq<char> {
        match self {
            LimitIncreaseRequestSupportingDocumentType::IndividualBankStatement => {
                "individual_bank_statement"@
            },
            LimitIncreaseRequestSupportingDocumentType::IndividualTaxReturn => {
                "individual_tax_return"@
            },
            LimitIncreaseRequestSupportingDocumentType::IndividualProofOfIncome => {
                "individual_proof_of_income"@
            },
            LimitIncreaseRequestSupportingDocumentType::BusinessBankStatement => {
                "business_bank_statement"@
            },
            LimitIncreaseRequestSupportingDocumentType::BusinessFinancialStatements => {
                "business_financial_statements"@
            },
            LimitIncreaseRequestSupportingDocumentType::BusinessTaxReturn => "business_tax_return"@,
        }
    }

    /// The name of the variant on the wire.
    pub fn as_str(&self) -> (name: &'static str)
        ensures
            name@ == self.wire(),
    {
        match self {
            LimitIncreaseRequestSupportingDocumentType::IndividualBankStatement => {
                "individual_bank_statement"
            },
            LimitIncreaseRequestSupportingDocumentType::IndividualTaxReturn => {
                "individual_tax_return"
            },
            LimitIncreaseRequestSupportingDocumentType::IndividualProofOfIncome => {
                "individual_proof_of_income"
            },
            LimitIncreaseRequestSupportingDocumentType::BusinessBankStatement => {
                "business_bank_statement"
            },
            LimitIncreaseRequestSupportingDocumentType::BusinessFinancialStatements => {
                "business_financial_statements"
            },
            LimitIncreaseRequestSupportingDocumentType::BusinessTaxReturn => "business_tax_return",
        }
    }
}

impl ToJson for LimitIncreaseRequestSupportingDocumentType {
    open spec fn json(&self) -> JsonView {
        JsonView::Str(self.wire())
    }

    fn to_json(&self) -> (doc: Json) {
        Json::string(self.as_str())
    }
}

#[derive(Debug, Clone)]
pub struct LimitIncreaseRequest {
    pub id: String,
    pub receiver_id: String,
    pub status: LimitIncreaseRequestStatus,
    pub daily: u64,
    pub monthly: u64,
    pub per_transaction: u64,
    pub supporting_document_file: String,
    pub supporting_document_type: LimitIncreaseRequestSupportingDocumentType,
    pub created_at: String,
    pub updated_at: String,
}

#[derive(Debug, Clone)]
pub struct RequestLimitIncreaseInput {
    pub receiver_id: String,
    pub daily: u64,
    pub monthly: u64,
    pub per_transaction: u64,
    pub supporting_document_file: String,
    pub supporting_document_type: LimitIncreaseRequestSupportingDocumentType,
}

impl ToJson for RequestLimitIncreaseInput {
    open spec fn json(&self) -> JsonView {
        JsonView::Object(
            Seq::<MemberView>::empty()
                .push(MemberView { name: "receiver_id"@, value: self.receiver_id.json() })
                .push(MemberView { name: "daily"@, value: self.daily.json() })
                .push(MemberView { name: "monthly"@, value: self.monthly.json() })
                .push(MemberView { name: "per_transaction"@, value: self.per_transaction.json() })
                .push(
                    MemberView {
                        name: "supporting_document_file"@,
                        value: self.supporting_document_file.json(),
                    },
                )
                .push(
                    MemberView {
                        name: "supporting_document_type"@,
                        value: self.supporting_document_type.json(),
                    },
                )
        )
    }

    fn to_json(&self) -> (doc: Json) {
        ObjectBuilder::new()
            .field("receiver_id", self.receiver_id.to_json())
            .field("daily", self.daily.to_json())
            .field("monthly", self.monthly.to_json())
            .field("per_transaction", self.per_transaction.to_json())
            .field("supporting_document_file", self.supporting_document_file.to_json())
            .field("supporting_document_type", self.supporting_document_type.to_json())
            .build()
    }
}

#[derive(Debug, Clone)]
pub struct RequestLimitIncreaseResponse {
    pub id: String,
}

/// Operations on receivers.
pub struct ReceiversResource {
    client: BlindPay,
}

impl View for ReceiversResource {
    type V = ClientView;

    closed spec fn view(&self) -> ClientView {
        self.client@
    }
}

impl ReceiversResource {
    /// A handle that works with the configuration of `client`.
    pub fn new(client: BlindPay) -> (resource: Self)
        ensures
            resource@ == client@,
    {
        Self { client }
    }

    /// The request that lists the receivers.
    pub fn list(&self) -> (request: HttpRequest)
        ensures
            request@ == self@.request(
                HttpMethod::Get,
                "/instances/"@ + self@.instance_id + "/receivers"@,
                None,
            ),
    {
        let path = String::from_str("/instances/")
            .concat(self.client.instance_id())
            .concat("/receivers");
        self.client.get(path.as_str())
    }

    /// The request that creates an individual with standard KYC. The body is the input with
    /// `standard` as its `kyc_type` and `individual` as its `type`.
    pub fn create_individual_with_standard_kyc(
        &self,
        input: CreateIndividualWithStandardKycInput,
    ) -> (request: HttpRequest)
        ensures
            request@ == self@.request(
                HttpMethod::Post,
                "/instances/"@ + self@.instance_id + "/receivers"@,
                Some(
                    input.json()
                        .with_field("kyc_type"@, JsonView::Str("standard"@))
                        .with_field("type"@, JsonView::Str("individual"@)),
                ),
            ),
    {
        let path = String::from_str("/instances/")
            .concat(self.client.instance_id())
            .concat("/receivers");
        let body = input.to_json()
            .with_field("kyc_type", Json::string("standard"))
            .with_field("type", Json::string("individual"));
        self.client.post(path.as_str(), body)
    }

    /// The request that creates an individual with enhanced KYC. The body is the input with
    /// `enhanced` as its `kyc_type` and `individual` as its `type`.
    pub fn create_individual_with_enhanced_kyc(
        &self,
        input: CreateIndividualWithEnhancedKycInput,
    ) -> (request: HttpRequest)
        ensures
            request@ == self@.request(
                HttpMethod::Post,
                "/instances/"@ + self@.instance_id + "/receivers"@,
                Some(
                    input.json()
                        .with_field("kyc_type"@, JsonView::Str("enhanced"@))
                        .with_field("type"@, JsonView::Str("individual"@)),
                ),
            ),
    {
        let path = String::from_str("/instances/")
            .concat(self.client.instance_id())
            .concat("/receivers");
        let body = input.to_json()
            .with_field("kyc_type", Json::string("enhanced"))
            .with_field("type", Json::string("individual"));
        self.client.post(path.as_str(), body)
    }

    /// The request that creates a business with standard KYB. The body is the input with
    /// `standard` as its `kyc_type` and `business` as its `type`.
    pub fn create_business_with_standard_kyb(
        &self,
        input: CreateBusinessWithStandardKybInput,
    ) -> (request: HttpRequest)
        ensures
            request@ == self@.request(
                HttpMethod::Post,
                "/instances/"@ + self@.instance_id + "/receivers"@,
                Some(
                    input.json()
                        .with_field("kyc_type"@, JsonView::Str("standard"@))
                        .with_field("type"@, JsonView::Str("business"@)),
                ),
            ),
    {
        let path = String::from_str("/instances/")
            .concat(self.client.instance_id())
            .concat("/receivers");
        let body = input.to_json()
            .with_field("kyc_type", Json::string("standard"))
            .with_field("type", Json::string("business"));
        self.client.post(path.as_str(), body)
    }

    /// The request that reads one receiver.
    pub fn get(&self, receiver_id: &str) -> (request: HttpRequest)
        ensures
            request@ == self@.request(
                HttpMethod::Get,
                "/instances/"@ + self@.instance_id + "/receivers/"@ + receiver_id@,
                None,
            ),
    {
        let path = String::from_str("/instances/")
            .concat(self.client.instance_id())
            .concat("/receivers/")
            .concat(receiver_id);
        self.client.get(path.as_str())
    }

    /// The request that updates one receiver.
    pub fn update(&self, input: UpdateReceiverInput) -> (request: HttpRequest)
        ensures
            request@ == self@.request(
                HttpMethod::Patch,
                "/instances/"@ + self@.instance_id + "/receivers/"@ + input.receiver_id@,
                Some(input.json()),
            ),
    {
        let path = String::from_str("/instances/")
            .concat(self.client.instance_id())
            .concat("/receivers/")
            .concat(input.receiver_id.as_str());
        let body = input.to_json();
        self.client.patch(path.as_str(), body)
    }

    /// The request that deletes one receiver.
    pub fn delete(&self, receiver_id: &str) -> (request: HttpRequest)
        ensures
            request@ == self@.request(
                HttpMethod::Delete,
                "/instances/"@ + self@.instance_id + "/receivers/"@ + receiver_id@,
                None,
            ),
    {
        let path = String::from_str("/instances/")
            .concat(self.client.instance_id())
            .concat("/receivers/")
            .concat(receiver_id);
        self.client.delete(path.as_str())
    }

    /// The request that reads the limits of a receiver.
    pub fn get_limits(&self, receiver_id: &str) -> (request: HttpRequest)
        ensures
            request@ == self@.request(
                HttpMethod::Get,
                "/instances/"@ + self@.instance_id + "/limits/receivers/"@ + receiver_id@,
                None,
            ),
    {
        let path = String::from_str("/instances/")
            .concat(self.client.instance_id())
            .concat("/limits/receivers/")
            .concat(receiver_id);
        self.client.get(path.as_str())
    }

    /// The request that lists what a receiver has asked for in higher limits.
    pub fn get_limit_increase_requests(&self, receiver_id: &str) -> (request: HttpRequest)
        ensures
            request@ == self@.request(
                HttpMethod::Get,
                "/instances/"@
                    + self@.instance_id
                    + "/receivers/"@
                    + receiver_id@
                    + "/limit-increase"@,
                None,
            ),
    {
        let path = String::from_str("/instances/")
            .concat(self.client.instance_id())
            .concat("/receivers/")
            .concat(receiver_id)
            .concat("/limit-increase");
        self.client.get(path.as_str())
    }

    /// The request that asks for higher limits.
    pub fn request_limit_increase(&self, input: RequestLimitIncreaseInput) -> (request: HttpRequest)
        ensures
            request@ == self@.request(
                HttpMethod::Post,
                "/instances/"@
                    + self@.instance_id
                    + "/receivers/"@
                    + input.receiver_id@
                    + "/limit-increase"@,
                Some(input.json()),
            ),
    {
        let path = String::from_str("/instances/")
            .concat(self.client.instance_id())
            .concat("/receivers/")
            .concat(input.receiver_id.as_str())
            .concat("/limit-increase");
        let body = input.to_json();
        self.client.post(path.as_str(), body)
    }

    /// The operations on the bank accounts of receivers.
    pub fn bank_accounts(&self) -> (resource: BankAccountsResource)
        ensures
            resource@ == self@,
    {
        BankAccountsResource::new(self.client.clone())
    }
}

} // verus!

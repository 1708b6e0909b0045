//! Bank accounts, one kind for each rail.

use crate::client::{BlindPay, ClientView};
use crate::http::{HttpMethod, HttpRequest};
use crate::json::{Json, JsonView, MemberView, ObjectBuilder, ToJson};
use crate::types::{
    AccountClass,
    AchCopDocument,
    ArgentinaTransfers,
    BankAccountType,
    Country,
    Rail,
};
use vstd::prelude::*;
use vstd::string::*;

verus! {

#[derive(Debug, Clone, Copy, PartialEq, Eq)]
pub enum SpeiProtocol {
    Clabe,
    Debitcard,
    Phonenum,
}

impl SpeiProtocol {
    /// The name of the variant on the wire.
    pub open spec fn wire(self) -> Seq<char> {
        match self {
            SpeiProtocol::Clabe => "clabe"@,
            SpeiProtocol::Debitcard => "debitcard"@,
            SpeiProtocol::Phonenum => "phonenum"@,
        }
    }

    /// The name of the variant on the wire.
    pub fn as_str(&self) -> (name: &'static str)
        ensures
            name@ == self.wire(),
    {
        match self {
            SpeiProtocol::Clabe => "clabe",
            SpeiProtocol::Debitcard => "debitcard",
            SpeiProtocol::Phonenum => "phonenum",
        }
    }
}

impl ToJson for SpeiProtocol {
    open spec fn json(&self) -> JsonView {
        JsonView::Str(self.wire())
    }

    fn to_json(&self) -> (doc: Json) {
        Json::string(self.as_str())
    }
}

#[derive(Debug, Clone)]
pub struct BankAccount {
    pub id: String,
    pub account_type: Rail,
    pub name: String,
    pub pix_key: Option<String>,
    pub beneficiary_name: Option<String>,
    pub routing_number: Option<String>,
    pub account_number: Option<String>,
    pub account_type_detail: Option<BankAccountType>,
    pub account_class: Option<AccountClass>,
    pub address_line_1: Option<String>,
    pub address_line_2: Option<String>,
    pub city: Option<String>,
    pub state_province_region: Option<String>,
    pub country: Option<Country>,
    pub postal_code: Option<String>,
    pub spei_protocol: Option<String>,
    pub spei_institution_code: Option<String>,
    pub spei_clabe: Option<String>,
    pub transfers_type: Option<ArgentinaTransfers>,
    pub transfers_account: Option<String>,
    pub ach_cop_beneficiary_first_name: Option<String>,
    pub ach_cop_beneficiary_last_name: Option<String>,
    pub ach_cop_document_id: Option<String>,
    pub ach_cop_document_type: Option<AchCopDocument>,
    pub ach_cop_email: Option<String>,
    pub ach_cop_bank_code: Option<String>,
    pub ach_cop_bank_account: Option<String>,
    pub swift_code_bic: Option<String>,
    pub swift_account_holder_name: Option<String>,
    pub swift_account_number_iban: Option<String>,
    pub swift_beneficiary_address_line_1: Option<String>,
    pub swift_beneficiary_address_line_2: Option<String>,
    pub swift_beneficiary_country: Option<Country>,
    pub swift_beneficiary_city: Option<String>,
    pub swift_beneficiary_state_province_region: Option<String>,
    pub swift_beneficiary_postal_code: Option<String>,
    pub swift_bank_name: Option<String>,
    pub swift_bank_address_line_1: Option<String>,
    pub swift_bank_address_line_2: Option<String>,
    pub swift_bank_country: Option<Country>,
    pub swift_bank_city: Option<String>,
    pub swift_bank_state_province_region: Option<String>,
    pub swift_bank_postal_code: Option<String>,
    pub swift_intermediary_bank_swift_code_bic: Option<String>,
    pub swift_intermediary_bank_account_number_iban: Option<String>,
    pub swift_intermediary_bank_name: Option<String>,
    pub swift_intermediary_bank_country: Option<Country>,
    pub created_at: String,
}

#[derive(Debug, Clone)]
pub struct ListBankAccountsResponse {
    pub data: Vec<BankAccount>,
}

#[derive(Debug, Clone)]
pub struct CreatePixInput {
    pub receiver_id: String,
    pub name: String,
    pub pix_key: String,
}

impl ToJson for CreatePixInput {
    open spec fn json(&self) -> JsonView {
        JsonView::Object(
            Seq::<MemberView>::empty()
                .push(MemberView { name: "receiver_id"@, value: self.receiver_id.json() })
                .push(MemberView { name: "name"@, value: self.name.json() })
                .push(MemberView { name: "pix_key"@, value: self.pix_key.json() })
        )
    }

    fn to_json(&self) -> (doc: Json) {
        ObjectBuilder::new()
            .field("receiver_id", self.receiver_id.to_json())
            .field("name", self.name.to_json())
            .field("pix_key", self.pix_key.to_json())
            .build()
    }
}

#[derive(Debug, Clone)]
pub struct CreatePixResponse {
    pub id: String,
    pub account_type: String,
    pub name: String,
    pub pix_key: String,
    pub created_at: String,
}

#[derive(Debug, Clone)]
pub struct CreateArgentinaTransfersInput {
    pub receiver_id: String,
    pub name: String,
    pub beneficiary_name: String,
    pub transfers_account: String,
    pub transfers_type: ArgentinaTransfers,
}

impl ToJson for CreateArgentinaTransfersInput {
    open spec fn json(&self) -> JsonView {
        JsonView::Object(
            Seq::<MemberView>::empty()
                .push(MemberView { name: "receiver_id"@, value: self.receiver_id.json() })
                .push(MemberView { name: "name"@, value: self.name.json() })
                .push(MemberView { name: "beneficiary_name"@, value: self.beneficiary_name.json() })
                .push(
                    MemberView {
                        name: "transfers_account"@,
                        value: self.transfers_account.json(),
                    },
                )
                .push(MemberView { name: "transfers_type"@, value: self.transfers_type.json() })
        )
    }

    fn to_json(&self) -> (doc: Json) {
        ObjectBuilder::new()
            .field("receiver_id", self.receiver_id.to_json())
            .field("name", self.name.to_json())
            .field("beneficiary_name", self.beneficiary_name.to_json())
            .field("transfers_account", self.transfers_account.to_json())
            .field("transfers_type", self.transfers_type.to_json())
            .build()
    }
}

#[derive(Debug, Clone)]
pub struct CreateArgentinaTransfersResponse {
    pub id: String,
    pub account_type: String,
    pub name: String,
    pub beneficiary_name: String,
    pub transfers_type: ArgentinaTransfers,
    pub transfers_account: String,
    pub created_at: String,
}

#[derive(Debug, Clone)]
pub struct CreateSpeiInput {
    pub receiver_id: String,
    pub beneficiary_name: String,
    pub name: String,
    pub spei_clabe: String,
    pub spei_institution_code: String,
    pub spei_protocol: SpeiProtocol,
}

impl ToJson for CreateSpeiInput {
    open spec fn json(&self) -> JsonView {
        JsonView::Object(
            Seq::<MemberView>::empty()
                .push(MemberView { name: "receiver_id"@, value: self.receiver_id.json() })
                .push(MemberView { name: "beneficiary_name"@, value: self.beneficiary_name.json() })
                .push(MemberView { name: "name"@, value: self.name.json() })
                .push(MemberView { name: "spei_clabe"@, value: self.spei_clabe.json() })
                .push(
                    MemberView {
                        name: "spei_institution_code"@,
                        value: self.spei_institution_code.json(),
                    },
                )
                .push(MemberView { name: "spei_protocol"@, value: self.spei_protocol.json() })
        )
    }

    fn to_json(&self) -> (doc: Json) {
        ObjectBuilder::new()
            .field("receiver_id", self.receiver_id.to_json())
            .field("beneficiary_name", self.beneficiary_name.to_json())
            .field("name", self.name.to_json())
            .field("spei_clabe", self.spei_clabe.to_json())
            .field("spei_institution_code", self.spei_institution_code.to_json())
            .field("spei_protocol", self.spei_protocol.to_json())
            .build()
    }
}

#[derive(Debug, Clone)]
pub struct CreateSpeiResponse {
    pub id: String,
    pub account_type: String,
    pub name: String,
    pub beneficiary_name: String,
    pub spei_protocol: SpeiProtocol,
    pub spei_institution_code: String,
    pub spei_clabe: String,
    pub created_at: String,
}

#[derive(Debug, Clone)]
pub struct CreateColombiaAchInput {
    pub receiver_id: String,
    pub name: String,
    pub account_type: BankAccountType,
    pub ach_cop_beneficiary_first_name: String,
    pub ach_cop_beneficiary_last_name: String,
    pub ach_cop_document_id: String,
    pub ach_cop_document_type: AchCopDocument,
    pub ach_cop_email: String,
    pub ach_cop_bank_code: String,
    pub ach_cop_bank_account: String,
}

impl ToJson for CreateColombiaAchInput {
    open spec fn json(&self) -> JsonView {
        JsonView::Object(
            Seq::<MemberView>::empty()
                .push(MemberView { name: "receiver_id"@, value: self.receiver_id.json() })
                .push(MemberView { name: "name"@, value: self.name.json() })
                .push(MemberView { name: "account_type"@, value: self.account_type.json() })
                .push(
                    MemberView {
                        name: "ach_cop_beneficiary_first_name"@,
                        value: self.ach_cop_beneficiary_first_name.json(),
                    },
                )
                .push(
                    MemberView {
                        name: "ach_cop_beneficiary_last_name"@,
                        value: self.ach_cop_beneficiary_last_name.json(),
                    },
                )
                .push(
                    MemberView {
                        name: "ach_cop_document_id"@,
                        value: self.ach_cop_document_id.json(),
                    },
                )
                .push(
                    MemberView {
                        name: "ach_cop_document_type"@,
                        value: self.ach_cop_document_type.json(),
                    },
                )
                .push(MemberView { name: "ach_cop_email"@, value: self.ach_cop_email.json() })
                .push(
                    MemberView {
                        name: "ach_cop_bank_code"@,
                        value: self.ach_cop_bank_code.json(),
                    },
                )
                .push(
                    MemberView {
                        name: "ach_cop_bank_account"@,
                        value: self.ach_cop_bank_account.json(),
                    },
                )
        )
    }

    fn to_json(&self) -> (doc: Json) {
        ObjectBuilder::new()
            .field("receiver_id", self.receiver_id.to_json())
            .field("name", self.name.to_json())
            .field("account_type", self.account_type.to_json())
            .field("ach_cop_beneficiary_first_name", self.ach_cop_beneficiary_first_name.to_json())
            .field("ach_cop_beneficiary_last_name", self.ach_cop_beneficiary_last_name.to_json())
            .field("ach_cop_document_id", self.ach_cop_document_id.to_json())
            .field("ach_cop_document_type", self.ach_cop_document_type.to_json())
            .field("ach_cop_email", self.ach_cop_email.to_json())
            .field("ach_cop_bank_code", self.ach_cop_bank_code.to_json())
            .field("ach_cop_bank_account", self.ach_cop_bank_account.to_json())
            .build()
    }
}

#[derive(Debug, Clone)]
pub struct CreateColombiaAchResponse {
    pub id: String,
    pub account_type: String,
    pub name: String,
    pub account_type_detail: BankAccountType,
    pub ach_cop_beneficiary_first_name: String,
    pub ach_cop_beneficiary_last_name: String,
    pub ach_cop_document_id: String,
    pub ach_cop_document_type: AchCopDocument,
    pub ach_cop_email: String,
    pub ach_cop_bank_code: String,
    pub ach_cop_bank_account: String,
    pub created_at: String,
}

#[derive(Debug, Clone)]
pub struct CreateAchInput {
    pub receiver_id: String,
    pub name: String,
    pub account_class: AccountClass,
    pub account_number: String,
    pub account_type: BankAccountType,
    pub beneficiary_name: String,
    pub routing_number: String,
}

impl ToJson for CreateAchInput {
    open spec fn json(&self) -> JsonView {
        JsonView::Object(
            Seq::<MemberView>::empty()
                .push(MemberView { name: "receiver_id"@, value: self.receiver_id.json() })
                .push(MemberView { name: "name"@, value: self.name.json() })
                .push(MemberView { name: "account_class"@, value: self.account_class.json() })
                .push(MemberView { name: "account_number"@, value: self.account_number.json() })
                .push(MemberView { name: "account_type"@, value: self.account_type.json() })
                .push(MemberView { name: "beneficiary_name"@, value: self.beneficiary_name.json() })
                .push(MemberView { name: "routing_number"@, value: self.routing_number.json() })
        )
    }

    fn to_json(&self) -> (doc: Json) {
        ObjectBuilder::new()
            .field("receiver_id", self.receiver_id.to_json())
            .field("name", self.name.to_json())
            .field("account_class", self.account_class.to_json())
            .field("account_number", self.account_number.to_json())
            .field("account_type", self.account_type.to_json())
            .field("beneficiary_name", self.beneficiary_name.to_json())
            .field("routing_number", self.routing_number.to_json())
            .build()
    }
}

#[derive(Debug, Clone)]
pub struct CreateAchResponse {
    pub id: String,
    pub rail_type: String,
    pub name: String,
    pub beneficiary_name: String,
    pub routing_number: String,
    pub account_number: String,
    pub account_type: BankAccountType,
    pub account_class: AccountClass,
    pub created_at: String,
}

#[derive(Debug, Clone)]
pub struct CreateWireInput {
    pub receiver_id: String,
    pub name: String,
    pub account_number: String,
    pub beneficiary_name: String,
    pub routing_number: String,
    pub address_line_1: String,
    pub address_line_2: Option<String>,
    pub city: String,
    pub state_province_region: String,
    pub country: Country,
    pub postal_code: String,
}

impl ToJson for CreateWireInput {
    open spec fn json(&self) -> JsonView {
        JsonView::Object(
            Seq::<MemberView>::empty()
                .push(MemberView { name: "receiver_id"@, value: self.receiver_id.json() })
                .push(MemberView { name: "name"@, value: self.name.json() })
                .push(MemberView { name: "account_number"@, value: self.account_number.json() })
                .push(MemberView { name: "beneficiary_name"@, value: self.beneficiary_name.json() })
                .push(MemberView { name: "routing_number"@, value: self.routing_number.json() })
                .push(MemberView { name: "address_line_1"@, value: self.address_line_1.json() })
                .push(MemberView { name: "address_line_2"@, value: self.address_line_2.json() })
                .push(MemberView { name: "city"@, value: self.city.json() })
                .push(
                    MemberView {
                        name: "state_province_region"@,
                        value: self.state_province_region.json(),
                    },
                )
                .push(MemberView { name: "country"@, value: self.country.json() })
                .push(MemberView { name: "postal_code"@, value: self.postal_code.json() })
        )
    }

    fn to_json(&self) -> (doc: Json) {
        ObjectBuilder::new()
            .field("receiver_id", self.receiver_id.to_json())
            .field("name", self.name.to_json())
            .field("account_number", self.account_number.to_json())
            .field("beneficiary_name", self.beneficiary_name.to_json())
            .field("routing_number", self.routing_number.to_json())
            .field("address_line_1", self.address_line_1.to_json())
            .field("address_line_2", self.address_line_2.to_json())
            .field("city", self.city.to_json())
            .field("state_province_region", self.state_province_region.to_json())
            .field("country", self.country.to_json())
            .field("postal_code", self.postal_code.to_json())
            .build()
    }
}

#[derive(Debug, Clone)]
pub struct CreateWireResponse {
    pub id: String,
    pub rail_type: String,
    pub name: String,
    pub beneficiary_name: String,
    pub routing_number: String,
    pub account_number: String,
    pub address_line_1: String,
    pub address_line_2: Option<String>,
    pub city: String,
    pub state_province_region: String,
    pub country: Country,
    pub postal_code: String,
    pub created_at: String,
}

#[derive(Debug, Clone)]
pub struct CreateInternationalSwiftInput {
    pub receiver_id: String,
    pub name: String,
    pub swift_account_holder_name: String,
    pub swift_account_number_iban: String,
    pub swift_bank_address_line_1: String,
    pub swift_bank_address_line_2: Option<String>,
    pub swift_bank_city: String,
    pub swift_bank_country: Country,
    pub swift_bank_name: String,
    pub swift_bank_postal_code: String,
    pub swift_bank_state_province_region: String,
    pub swift_beneficiary_address_line_1: String,
    pub swift_beneficiary_address_line_2: Option<String>,
    pub swift_beneficiary_city: String,
    pub swift_beneficiary_country: Country,
    pub swift_beneficiary_postal_code: String,
    pub swift_beneficiary_state_province_region: String,
    pub swift_code_bic: String,
    pub swift_intermediary_bank_account_number_iban: Option<String>,
    pub swift_intermediary_bank_country: Option<Country>,
    pub swift_intermediary_bank_name: Option<String>,
    pub swift_intermediary_bank_swift_code_bic: Option<String>,
}

impl ToJson for CreateInternationalSwiftInput {
    open spec fn json(&self) -> JsonView {
        JsonView::Object(
            Seq::<MemberView>::empty()
                .push(MemberView { name: "receiver_id"@, value: self.receiver_id.json() })
                .push(MemberView { name: "name"@, value: self.name.json() })
                .push(
                    MemberView {
                        name: "swift_account_holder_name"@,
                        value: self.swift_account_holder_name.json(),
                    },
                )
                .push(
                    MemberView {
                        name: "swift_account_number_iban"@,
                        value: self.swift_account_number_iban.json(),
                    },
                )
                .push(
                    MemberView {
                        name: "swift_bank_address_line_1"@,
                        value: self.swift_bank_address_line_1.json(),
                    },
                )
                .push(
                    MemberView {
                        name: "swift_bank_address_line_2"@,
                        value: self.swift_bank_address_line_2.json(),
                    },
                )
                .push(MemberView { name: "swift_bank_city"@, value: self.swift_bank_city.json() })
                .push(
                    MemberView {
                        name: "swift_bank_country"@,
                        value: self.swift_bank_country.json(),
                    },
                )
                .push(MemberView { name: "swift_bank_name"@, value: self.swift_bank_name.json() })
                .push(
                    MemberView {
                        name: "swift_bank_postal_code"@,
                        value: self.swift_bank_postal_code.json(),
                    },
                )
                .push(
                    MemberView {
                        name: "swift_bank_state_province_region"@,
                        value: self.swift_bank_state_province_region.json(),
                    },
                )
                .push(
                    MemberView {
                        name: "swift_beneficiary_address_line_1"@,
                        value: self.swift_beneficiary_address_line_1.json(),
                    },
                )
                .push(
                    MemberView {
                        name: "swift_beneficiary_address_line_2"@,
                        value: self.swift_beneficiary_address_line_2.json(),
                    },
                )
                .push(
                    MemberView {
                        name: "swift_beneficiary_city"@,
                        value: self.swift_beneficiary_city.json(),
                    },
                )
                .push(
                    MemberView {
                        name: "swift_beneficiary_country"@,
                        value: self.swift_beneficiary_country.json(),
                    },
                )
                .push(
                    MemberView {
                        name: "swift_beneficiary_postal_code"@,
                        value: self.swift_beneficiary_postal_code.json(),
                    },
                )
                .push(
                    MemberView {
                        name: "swift_beneficiary_state_province_region"@,
                        value: self.swift_beneficiary_state_province_region.json(),
                    },
                )
                .push(MemberView { name: "swift_code_bic"@, value: self.swift_code_bic.json() })
                .push(
                    MemberView {
                        name: "swift_intermediary_bank_account_number_iban"@,
                        value: self.swift_intermediary_bank_account_number_iban.json(),
                    },
                )
                .push(
                    MemberView {
                        name: "swift_intermediary_bank_country"@,
                        value: self.swift_intermediary_bank_country.json(),
                    },
                )
                .push(
                    MemberView {
                        name: "swift_intermediary_bank_name"@,
                        value: self.swift_intermediary_bank_name.json(),
                    },
                )
                .push(
                    MemberView {
                        name: "swift_intermediary_bank_swift_code_bic"@,
                        value: self.swift_intermediary_bank_swift_code_bic.json(),
                    },
                )
        )
    }

    fn to_json(&self) -> (doc: Json) {
        ObjectBuilder::new()
            .field("receiver_id", self.receiver_id.to_json())
            .field("name", self.name.to_json())
            .field("swift_account_holder_name", self.swift_account_holder_name.to_json())
            .field("swift_account_number_iban", self.swift_account_number_iban.to_json())
            .field("swift_bank_address_line_1", self.swift_bank_address_line_1.to_json())
            .field("swift_bank_address_line_2", self.swift_bank_address_line_2.to_json())
            .field("swift_bank_city", self.swift_bank_city.to_json())
            .field("swift_bank_country", self.swift_bank_country.to_json())
            .field("swift_bank_name", self.swift_bank_name.to_json())
            .field("swift_bank_postal_code", self.swift_bank_postal_code.to_json())
            .field(
                "swift_bank_state_province_region",
                self.swift_bank_state_province_region.to_json(),
            )
            .field(
                "swift_beneficiary_address_line_1",
                self.swift_beneficiary_address_line_1.to_json(),
            )
            .field(
                "swift_beneficiary_address_line_2",
                self.swift_beneficiary_address_line_2.to_json(),
            )
            .field("swift_beneficiary_city", self.swift_beneficiary_city.to_json())
            .field("swift_beneficiary_country", self.swift_beneficiary_country.to_json())
            .field("swift_beneficiary_postal_code", self.swift_beneficiary_postal_code.to_json())
            .field(
                "swift_beneficiary_state_province_region",
                self.swift_beneficiary_state_province_region.to_json(),
            )
            .field("swift_code_bic", self.swift_code_bic.to_json())
            .field(
                "swift_intermediary_bank_account_number_iban",
                self.swift_intermediary_bank_account_number_iban.to_json(),
            )
            .field(
                "swift_intermediary_bank_country",
                self.swift_intermediary_bank_country.to_json(),
            )
            .field("swift_intermediary_bank_name", self.swift_intermediary_bank_name.to_json())
            .field(
                "swift_intermediary_bank_swift_code_bic",
                self.swift_intermediary_bank_swift_code_bic.to_json(),
            )
            .build()
    }
}

#[derive(Debug, Clone)]
pub struct CreateInternationalSwiftResponse {
    pub id: String,
    pub rail_type: String,
    pub name: String,
    pub swift_code_bic: String,
    pub swift_account_holder_name: String,
    pub swift_account_number_iban: String,
    pub created_at: String,
}

#[derive(Debug, Clone)]
pub struct CreateRtpInput {
    pub receiver_id: String,
    pub name: String,
    pub beneficiary_name: String,
    pub routing_number: String,
    pub account_number: String,
    pub address_line_1: String,
    pub address_line_2: Option<String>,
    pub city: String,
    pub state_province_region: String,
    pub country: Country,
    pub postal_code: String,
}

impl ToJson for CreateRtpInput {
    open spec fn json(&self) -> JsonView {
        JsonView::Object(
            Seq::<MemberView>::empty()
                .push(MemberView { name: "receiver_id"@, value: self.receiver_id.json() })
                .push(MemberView { name: "name"@, value: self.name.json() })
                .push(MemberView { name: "beneficiary_name"@, value: self.beneficiary_name.json() })
                .push(MemberView { name: "routing_number"@, value: self.routing_number.json() })
                .push(MemberView { name: "account_number"@, value: self.account_number.json() })
                .push(MemberView { name: "address_line_1"@, value: self.address_line_1.json() })
                .push(MemberView { name: "address_line_2"@, value: self.address_line_2.json() })
                .push(MemberView { name: "city"@, value: self.city.json() })
                .push(
                    MemberView {
                        name: "state_province_region"@,
                        value: self.state_province_region.json(),
                    },
                )
                .push(MemberView { name: "country"@, value: self.country.json() })
                .push(MemberView { name: "postal_code"@, value: self.postal_code.json() })
        )
    }

    fn to_json(&self) -> (doc: Json) {
        ObjectBuilder::new()
            .field("receiver_id", self.receiver_id.to_json())
            .field("name", self.name.to_json())
            .field("beneficiary_name", self.beneficiary_name.to_json())
            .field("routing_number", self.routing_number.to_json())
            .field("account_number", self.account_number.to_json())
            .field("address_line_1", self.address_line_1.to_json())
            .field("address_line_2", self.address_line_2.to_json())
            .field("city", self.city.to_json())
            .field("state_province_region", self.state_province_region.to_json())
            .field("country", self.country.to_json())
            .field("postal_code", self.postal_code.to_json())
            .build()
    }
}

#[derive(Debug, Clone)]
pub struct CreateRtpResponse {
    pub id: String,
    pub rail_type: String,
    pub name: String,
    pub beneficiary_name: String,
    pub routing_number: String,
    pub account_number: String,
    pub address_line_1: String,
    pub address_line_2: Option<String>,
    pub city: String,
    pub state_province_region: String,
    pub country: Country,
    pub postal_code: String,
    pub created_at: String,
}

/// Operations on the bank accounts of a receiver.
pub struct BankAccountsResource {
    client: BlindPay,
}

impl View for BankAccountsResource {
    type V = ClientView;

    closed spec fn view(&self) -> ClientView {
        self.client@
    }
}

impl BankAccountsResource {
    /// A handle that works with the configuration of `client`.
    pub fn new(client: BlindPay) -> (resource: Self)
        ensures
            resource@ == client@,
    {
        Self { client }
    }

    /// The request that lists the bank accounts of a receiver.
    pub fn list(&self, receiver_id: &str) -> (request: HttpRequest)
        ensures
            request@ == self@.request(
                HttpMethod::Get,
                "/instances/"@
                    + self@.instance_id
                    + "/receivers/"@
                    + receiver_id@
                    + "/bank-accounts"@,
                None,
            ),
    {
        let path = String::from_str("/instances/")
            .concat(self.client.instance_id())
            .concat("/receivers/")
            .concat(receiver_id)
            .concat("/bank-accounts");
        self.client.get(path.as_str())
    }

    /// The request that reads one bank account.
    pub fn get(&self, receiver_id: &str, id: &str) -> (request: HttpRequest)
        ensures
            request@ == self@.request(
                HttpMethod::Get,
                "/instances/"@
                    + self@.instance_id
                    + "/receivers/"@
                    + receiver_id@
                    + "/bank-accounts/"@
                    + id@,
                None,
            ),
    {
        let path = String::from_str("/instances/")
            .concat(self.client.instance_id())
            .concat("/receivers/")
            .concat(receiver_id)
            .concat("/bank-accounts/")
            .concat(id);
        self.client.get(path.as_str())
    }

    /// The request that deletes one bank account.
    pub fn delete(&self, receiver_id: &str, id: &str) -> (request: HttpRequest)
        ensures
            request@ == self@.request(
                HttpMethod::Delete,
                "/instances/"@
                    + self@.instance_id
                    + "/receivers/"@
                    + receiver_id@
                    + "/bank-accounts/"@
                    + id@,
                None,
            ),
    {
        let path = String::from_str("/instances/")
            .concat(self.client.instance_id())
            .concat("/receivers/")
            .concat(receiver_id)
            .concat("/bank-accounts/")
            .concat(id);
        self.client.delete(path.as_str())
    }

    /// The request that creates a PIX bank account. The body is the input
    /// with the rail `pix` as its `type`.
    pub fn create_pix(&self, input: CreatePixInput) -> (request: HttpRequest)
        ensures
            request@ == self@.request(
                HttpMethod::Post,
                "/instances/"@
                    + self@.instance_id
                    + "/receivers/"@
                    + input.receiver_id@
                    + "/bank-accounts"@,
                Some(
                    input.json()
                        .with_field("type"@, JsonView::Str("pix"@)),
                ),
            ),
    {
        let path = String::from_str("/instances/")
            .concat(self.client.instance_id())
            .concat("/receivers/")
            .concat(input.receiver_id.as_str())
            .concat("/bank-accounts");
        let body = input.to_json()
            .with_field("type", Json::string("pix"));
        self.client.post(path.as_str(), body)
    }

    /// The request that creates an Argentina Transfers bank account. The body is the input
    /// with the rail `transfers_bitso` as its `type`.
    pub fn create_argentina_transfers(
        &self,
        input: CreateArgentinaTransfersInput,
    ) -> (request: HttpRequest)
        ensures
            request@ == self@.request(
                HttpMethod::Post,
                "/instances/"@
                    + self@.instance_id
                    + "/receivers/"@
                    + input.receiver_id@
                    + "/bank-accounts"@,
                Some(
                    input.json()
                        .with_field("type"@, JsonView::Str("transfers_bitso"@)),
                ),
            ),
    {
        let path = String::from_str("/instances/")
            .concat(self.client.instance_id())
            .concat("/receivers/")
            .concat(input.receiver_id.as_str())
            .concat("/bank-accounts");
        let body = input.to_json()
            .with_field("type", Json::string("transfers_bitso"));
        self.client.post(path.as_str(), body)
    }

    /// The request that creates a SPEI bank account. The body is the input
    /// with the rail `spei_bitso` as its `type`.
    pub fn create_spei(&self, input: CreateSpeiInput) -> (request: HttpRequest)
        ensures
            request@ == self@.request(
                HttpMethod::Post,
                "/instances/"@
                    + self@.instance_id
                    + "/receivers/"@
                    + input.receiver_id@
                    + "/bank-accounts"@,
                Some(
                    input.json()
                        .with_field("type"@, JsonView::Str("spei_bitso"@)),
                ),
            ),
    {
        let path = String::from_str("/instances/")
            .concat(self.client.instance_id())
            .concat("/receivers/")
            .concat(input.receiver_id.as_str())
            .concat("/bank-accounts");
        let body = input.to_json()
            .with_field("type", Json::string("spei_bitso"));
        self.client.post(path.as_str(), body)
    }

    /// The request that creates a Colombia ACH bank account. The body is the input
    /// with the rail `ach_cop_bitso` as its `type`.
    pub fn create_colombia_ach(&self, input: CreateColombiaAchInput) -> (request: HttpRequest)
        ensures
            request@ == self@.request(
                HttpMethod::Post,
                "/instances/"@
                    + self@.instance_id
                    + "/receivers/"@
                    + input.receiver_id@
                    + "/bank-accounts"@,
                Some(
                    input.json()
                        .with_field("type"@, JsonView::Str("ach_cop_bitso"@)),
                ),
            ),
    {
        let path = String::from_str("/instances/")
            .concat(self.client.instance_id())
            .concat("/receivers/")
            .concat(input.receiver_id.as_str())
            .concat("/bank-accounts");
        let body = input.to_json()
            .with_field("type", Json::string("ach_cop_bitso"));
        self.client.post(path.as_str(), body)
    }

    /// The request that creates an ACH bank account. The body is the input
    /// with the rail `ach` as its `type`.
    pub fn create_ach(&self, input: CreateAchInput) -> (request: HttpRequest)
        ensures
            request@ == self@.request(
                HttpMethod::Post,
                "/instances/"@
                    + self@.instance_id
                    + "/receivers/"@
                    + input.receiver_id@
                    + "/bank-accounts"@,
                Some(
                    input.json()
                        .with_field("type"@, JsonView::Str("ach"@)),
                ),
            ),
    {
        let path = String::from_str("/instances/")
            .concat(self.client.instance_id())
            .concat("/receivers/")
            .concat(input.receiver_id.as_str())
            .concat("/bank-accounts");
        let body = input.to_json()
            .with_field("type", Json::string("ach"));
        self.client.post(path.as_str(), body)
    }

    /// The request that creates a wire bank account. The body is the input
    /// with the rail `wire` as its `type`.
    pub fn create_wire(&self, input: CreateWireInput) -> (request: HttpRequest)
        ensures
            request@ == self@.request(
                HttpMethod::Post,
                "/instances/"@
                    + self@.instance_id
                    + "/receivers/"@
                    + input.receiver_id@
                    + "/bank-accounts"@,
                Some(
                    input.json()
                        .with_field("type"@, JsonView::Str("wire"@)),
                ),
            ),
    {
        let path = String::from_str("/instances/")
            .concat(self.client.instance_id())
            .concat("/receivers/")
            .concat(input.receiver_id.as_str())
            .concat("/bank-accounts");
        let body = input.to_json()
            .with_field("type", Json::string("wire"));
        self.client.post(path.as_str(), body)
    }

    /// The request that creates an international SWIFT bank account. The body is the input
    /// with the rail `international_swift` as its `type`.
    pub fn create_international_swift(
        &self,
        input: CreateInternationalSwiftInput,
    ) -> (request: HttpRequest)
        ensures
            request@ == self@.request(
                HttpMethod::Post,
                "/instances/"@
                    + self@.instance_id
                    + "/receivers/"@
                    + input.receiver_id@
                    + "/bank-accounts"@,
                Some(
                    input.json()
                        .with_field("type"@, JsonView::Str("international_swift"@)),
                ),
            ),
    {
        let path = String::from_str("/instances/")
            .concat(self.client.instance_id())
            .concat("/receivers/")
            .concat(input.receiver_id.as_str())
            .concat("/bank-accounts");
        let body = input.to_json()
            .with_field("type", Json::string("international_swift"));
        self.client.post(path.as_str(), body)
    }

    /// The request that creates an RTP bank account. The body is the input
    /// with the rail `rtp` as its `type`.
    pub fn create_rtp(&self, input: CreateRtpInput) -> (request: HttpRequest)
        ensures
            request@ == self@.request(
                HttpMethod::Post,
                "/instances/"@
                    + self@.instance_id
                    + "/receivers/"@
                    + input.receiver_id@
                    + "/bank-accounts"@,
                Some(
                    input.json()
                        .with_field("type"@, JsonView::Str("rtp"@)),
                ),
            ),
    {
        let path = String::from_str("/instances/")
            .concat(self.client.instance_id())
            .concat("/receivers/")
            .concat(input.receiver_id.as_str())
            .concat("/bank-accounts");
        let body = input.to_json()
            .with_field("type", Json::string("rtp"));
        self.client.post(path.as_str(), body)
    }
}

} // verus!

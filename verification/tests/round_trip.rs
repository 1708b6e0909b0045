use blindpay::json::{Json, Member, ToJson};
use blindpay::resources::bank_accounts::CreatePixInput;
use blindpay::resources::receivers::{
    CreateBusinessWithStandardKybInput, IdentificationDocument, Owner, OwnerRole,
    ProofOfAddressDocType,
};
use blindpay::types::Country;
use blindpay::BlindPay;

fn to_value(document: &Json) -> serde_json::Value {
    match document {
        Json::Null => serde_json::Value::Null,
        Json::Bool(flag) => serde_json::Value::Bool(*flag),
        Json::Number(text) => {
            serde_json::Value::Number(serde_json::from_str::<serde_json::Number>(text).unwrap())
        }
        Json::Str(text) => serde_json::Value::String(text.clone()),
        Json::Array(items) => serde_json::Value::Array(items.iter().map(to_value).collect()),
        Json::Object(fields) => {
            let mut map = serde_json::Map::new();
            for Member { name, value } in fields {
                map.insert(name.clone(), to_value(value));
            }
            serde_json::Value::Object(map)
        }
    }
}

fn same(left: &Json, right: &Json) -> bool {
    match (left, right) {
        (Json::Array(a), Json::Array(b)) => {
            a.len() == b.len() && a.iter().zip(b.iter()).all(|(x, y)| same(x, y))
        }
        (Json::Object(a), Json::Object(b)) => {
            a.len() == b.len()
                && a.iter().all(|m| right.get(&m.name).map_or(false, |v| same(&m.value, v)))
        }
        _ => left == right,
    }
}

fn through_text(document: &Json) -> Json {
    let text = serde_json::to_string(&to_value(document)).unwrap();
    Json::parse(&text).unwrap()
}

fn owner() -> Owner {
    Owner {
        id: None,
        role: OwnerRole::BeneficialOwner,
        first_name: "Ana".to_string(),
        last_name: "Souza \"Jr\"".to_string(),
        date_of_birth: "1990-01-01".to_string(),
        tax_id: "123".to_string(),
        address_line_1: "Rua 1".to_string(),
        address_line_2: Some("Apto 2".to_string()),
        city: "S\u{e3}o Paulo".to_string(),
        state_province_region: "SP".to_string(),
        country: Country::BR,
        postal_code: "01000".to_string(),
        id_doc_country: Country::BR,
        id_doc_type: IdentificationDocument::IdCard,
        id_doc_front_file: "https://f.x/front".to_string(),
        id_doc_back_file: None,
        proof_of_address_doc_type: ProofOfAddressDocType::BankStatement,
        proof_of_address_doc_file: "https://f.x/proof".to_string(),
    }
}

fn business() -> CreateBusinessWithStandardKybInput {
    CreateBusinessWithStandardKybInput {
        external_id: None,
        address_line_1: "1 Main St".to_string(),
        address_line_2: None,
        alternate_name: Some("ACME".to_string()),
        city: "Austin".to_string(),
        country: Country::US,
        email: "a@b.c".to_string(),
        formation_date: "2020-01-01".to_string(),
        incorporation_doc_file: "https://f.x/inc".to_string(),
        legal_name: "ACME Inc".to_string(),
        owners: vec![owner(), owner()],
        postal_code: "73301".to_string(),
        proof_of_address_doc_file: "https://f.x/poa".to_string(),
        proof_of_address_doc_type: ProofOfAddressDocType::UtilityBill,
        proof_of_ownership_doc_file: "https://f.x/own".to_string(),
        state_province_region: "TX".to_string(),
        tax_id: "99".to_string(),
        tos_id: "to_1".to_string(),
        website: None,
    }
}

#[test]
fn pix_body_survives_the_wire() {
    let client = BlindPay::new("sk_test", "in_1").unwrap();
    let input = CreatePixInput {
        receiver_id: "re_123".to_string(),
        name: "My PIX".to_string(),
        pix_key: "14947677768".to_string(),
    };
    let body = client.receivers().bank_accounts().create_pix(input).body.unwrap();
    let text = serde_json::to_string(&to_value(&body)).unwrap();
    assert_eq!(
        text,
        "{\"name\":\"My PIX\",\"pix_key\":\"14947677768\",\"receiver_id\":\"re_123\",\"type\":\"pix\"}"
    );
    assert!(same(&through_text(&body), &body));
}

#[test]
fn business_body_survives_the_wire() {
    let client = BlindPay::new("sk_test", "in_1").unwrap();
    let request = client.receivers().create_business_with_standard_kyb(business());
    assert_eq!(request.url, "https://api.blindpay.com/v1/instances/in_1/receivers");
    let body = request.body.unwrap();
    assert_eq!(body.get("kyc_type"), Some(&Json::string("standard")));
    assert_eq!(body.get("type"), Some(&Json::string("business")));
    assert_eq!(body.get("country"), Some(&Json::string("U_S")));
    assert_eq!(body.get("website"), Some(&Json::Null));
    let back = through_text(&body);
    assert!(same(&back, &body));
    match back.get("owners") {
        Some(Json::Array(owners)) => {
            assert_eq!(owners.len(), 2);
            assert_eq!(owners[0].get("id_doc_type"), Some(&Json::string("ID_CARD")));
            assert_eq!(owners[1].get("last_name"), Some(&Json::string("Souza \"Jr\"")));
        }
        other => panic!("unexpected owners: {:?}", other),
    }
    assert!(same(&business().to_json().with_field("kyc_type", Json::string("standard"))
        .with_field("type", Json::string("business")), &body));
}

#[test]
fn numbers_survive_the_wire() {
    let document = Json::Array(vec![
        Json::unsigned(0),
        Json::unsigned(u64::MAX),
        Json::Number("-12".to_string()),
        Json::Number("1.5".to_string()),
    ]);
    assert_eq!(through_text(&document), document);
}

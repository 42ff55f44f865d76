use coinbase_v3::accounts::{Account, AccountType, Balance};
use coinbase_v3::json::{parse_document, FromJson, JsonValue};
use coinbase_v3::json::vec_from_json;

#[test]
fn test_account_deserialize() {
    let input = r##"[
      {
        "uuid": "9dd482e4-d8ce-46f7-a261-281843bd2855",
        "name": "SOL Wallet",
        "currency": "SOL",
        "available_balance": { "value": "70.313593992", "currency": "SOL" },
        "default": true,
        "active": true,
        "created_at": "2023-06-07T17:30:40.425Z",
        "deleted_at": null,
        "type": "ACCOUNT_TYPE_CRYPTO",
        "ready": true,
        "hold": { "value": "0", "currency": "SOL" }
      }
]"##;

    let doc = parse_document(input).unwrap();
    let accounts: Vec<Account> = match doc {
        JsonValue::Array(xs) => vec_from_json::<Account>(&xs).unwrap(),
        _ => panic!("expected a JSON array"),
    };
    assert_eq!(accounts.len(), 1);
    assert_eq!(accounts[0].uuid, "9dd482e4-d8ce-46f7-a261-281843bd2855");
}

#[test]
fn test_balance_deserialize() {
    let input = r##"{ "value": "70.313593992", "currency": "SOL" }"##;
    let doc = parse_document(input).unwrap();
    let balance = Balance::from_json(&doc).unwrap();
    assert!((balance.value.parse::<f64>().unwrap() - 70.313593992f64).abs() < 0.000000001);
}

#[test]
fn test_account_type_deserialize() {
    let input = r##""ACCOUNT_TYPE_UNSPECIFIED""##;
    let s: String = serde_json::from_str(input).unwrap();
    assert_eq!(AccountType::from_wire(&s), Some(AccountType::AccountTypeUnspecified));

    let input = r##""ACCOUNT_TYPE_CRYPTO""##;
    let s: String = serde_json::from_str(input).unwrap();
    assert_eq!(AccountType::from_wire(&s), Some(AccountType::AccountTypeCrypto));

    let input = r##""ACCOUNT_TYPE_FIAT""##;
    let s: String = serde_json::from_str(input).unwrap();
    assert_eq!(AccountType::from_wire(&s), Some(AccountType::AccountTypeFiat));

    let input = r##""ACCOUNT_TYPE_VAULT""##;
    let s: String = serde_json::from_str(input).unwrap();
    assert_eq!(AccountType::from_wire(&s), Some(AccountType::AccountTypeVault));
}

#[test]
fn test_account_type_serialize() {
    let expected = r##""ACCOUNT_TYPE_CRYPTO""##;
    assert_eq!(
        expected,
        serde_json::to_string(AccountType::AccountTypeCrypto.wire_name()).unwrap()
    );
}

#[test]
fn test_account_rejects_bad_uuid() {
    let input = r##"{
        "uuid": "not-a-uuid",
        "name": "SOL Wallet",
        "currency": "SOL",
        "available_balance": { "value": "1", "currency": "SOL" },
        "default": true,
        "active": true,
        "type": "ACCOUNT_TYPE_CRYPTO",
        "ready": true,
        "hold": { "value": "0", "currency": "SOL" }
    }"##;
    let doc = parse_document(input).unwrap();
    assert_eq!(Account::from_json(&doc), None);
}

#[test]
fn test_account_rejects_bad_timestamp() {
    let input = r##"{
        "uuid": "9dd482e4-d8ce-46f7-a261-281843bd2855",
        "name": "SOL Wallet",
        "currency": "SOL",
        "available_balance": { "value": "1", "currency": "SOL" },
        "default": true,
        "active": true,
        "created_at": "yesterday, more or less",
        "type": "ACCOUNT_TYPE_CRYPTO",
        "ready": true,
        "hold": { "value": "0", "currency": "SOL" }
    }"##;
    let doc = parse_document(input).unwrap();
    assert_eq!(Account::from_json(&doc), None);
}

#[test]
fn test_balance_rejects_non_decimal() {
    let input = r##"{ "value": "plenty", "currency": "SOL" }"##;
    let doc = parse_document(input).unwrap();
    assert_eq!(Balance::from_json(&doc), None);
}

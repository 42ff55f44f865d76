use coinbase_v3::fees::{GoodsAndServicesTaxType, TransactionsSummary};
use coinbase_v3::json::{parse_document, FromJson};

#[test]
fn test_goods_and_services_tax_type_deserialize() {
    let input = r##""INCLUSIVE""##;
    let s: String = serde_json::from_str(input).unwrap();
    assert_eq!(
        GoodsAndServicesTaxType::from_wire(&s),
        Some(GoodsAndServicesTaxType::Inclusive)
    );

    let input = r##""EXCLUSIVE""##;
    let s: String = serde_json::from_str(input).unwrap();
    assert_eq!(
        GoodsAndServicesTaxType::from_wire(&s),
        Some(GoodsAndServicesTaxType::Exclusive)
    );
}

#[test]
fn test_goods_and_services_tax_type_serialize() {
    let expected = r##""INCLUSIVE""##;
    assert_eq!(
        expected,
        serde_json::to_string(GoodsAndServicesTaxType::Inclusive.wire_name()).unwrap()
    );
}

#[test]
fn test_transaction_summary_deserialize() {
    let input = r##"{
        "total_volume": 1000,
        "total_fees": 25,
        "fee_tier": {
            "pricing_tier": "<$10k",
            "usd_from": "0",
            "usd_to": "10,000",
            "taker_fee_rate": "0.0010",
            "maker_fee_rate": "0.0020"
        },
        "margin_rate": {
            "value": "string"
        },
        "goods_and_services_tax": {
            "rate": "string",
            "type": "INCLUSIVE"
        },
        "advanced_trade_only_volume": 1000,
        "advanced_trade_only_fees": 25,
        "coinbase_pro_volume": 1000,
        "coinbase_pro_fees": 25
    }"##;
    let doc = parse_document(input).unwrap();
    let result = TransactionsSummary::from_json(&doc).unwrap();
    assert_eq!(result.total_volume.parse::<f64>().unwrap(), 1000.0);
}

use coinbase_v3::json::{parse_document, FromJson};
use coinbase_v3::products::{Candle, ContractExpiryType, FcmTradingSessionDetails,
    FutureProductDetails, Granularity, MarketTrades, PerpetualDetails, Pricebook, Product,
    ProductType, Side, Trade, TradeType};

#[test]
fn test_product_deserialize() {
    let input = r##"{
        "product_id": "BAT-ETH",
        "price": "",
        "volume_24h": "6",
        "volume_percentage_change_24h": "-99.40239043824701",
        "base_increment": "1",
        "quote_increment": "0.00000001",
        "quote_min_size": "0.0003",
        "quote_max_size": "2500",
        "base_min_size": "4.5",
        "base_max_size": "480000",
        "base_name": "Basic Attention Token",
        "quote_name": "Ethereum",
        "watched": false,
        "is_disabled": false,
        "new": false,
        "status": "online",
        "cancel_only": false,
        "limit_only": false,
        "post_only": false,
        "trading_disabled": false,
        "auction_mode": false,
        "product_type": "SPOT",
        "quote_currency_id": "ETH",
        "base_currency_id": "BAT",
        "fcm_trading_session_details": null,
        "mid_market_price": "",
        "alias": "ALIAS",
        "alias_to": ["ALIAS-TO"],
        "base_display_symbol": "BAT",
        "quote_display_symbol": "ETH",
        "view_only": false,
        "price_increment": "0.00000001"
    }"##;
    // "price_percentage_change_24h": "9", -- absent, to exercise the optional field

    let doc = parse_document(input).unwrap();
    let product = Product::from_json(&doc).unwrap();
    assert_eq!(product.product_type, "SPOT".to_string());
}

#[test]
fn test_pricebook_deserialize() {
    let input = r##"{
        "product_id": "QSP-USDT",
        "bids": [{ "price": "0.01251", "size": "7448" }],
        "asks": [{ "price": "0.0127", "size": "2850" }],
        "time": "2023-07-05T05:30:57.651784Z"
    }"##;
    let doc = parse_document(input).unwrap();
    let pricebook = Pricebook::from_json(&doc).unwrap();
    assert_eq!("QSP-USDT".to_string(), pricebook.product_id);
    assert_eq!("QSP-USDT".to_string(), pricebook.product_id);
}

#[test]
fn test_product_type_deserialize() {
    let input = r##""SPOT""##;
    let s: String = serde_json::from_str(input).unwrap();
    assert_eq!(ProductType::from_wire(&s), Some(ProductType::Spot));

    let input = r##""FUTURE""##;
    let s: String = serde_json::from_str(input).unwrap();
    assert_eq!(ProductType::from_wire(&s), Some(ProductType::Future));
}

#[test]
fn test_product_type_serialize() {
    let expected = r##""SPOT""##;
    assert_eq!(expected, serde_json::to_string(ProductType::Spot.wire_name()).unwrap());

    let expected = r##""FUTURE""##;
    assert_eq!(expected, serde_json::to_string(ProductType::Future.wire_name()).unwrap());
}

#[test]
fn test_contract_expiry_type_deserialize() {
    let input = r##""UNKNOWN_RISK_MANAGEMENT_TYPE""##;
    let s: String = serde_json::from_str(input).unwrap();
    assert_eq!(
        ContractExpiryType::from_wire(&s),
        Some(ContractExpiryType::UnknownRiskManagementType)
    );

    let input = r##""EXPIRING""##;
    let s: String = serde_json::from_str(input).unwrap();
    assert_eq!(ContractExpiryType::from_wire(&s), Some(ContractExpiryType::Expiring));
}

#[test]
fn test_contract_expiry_type_serialize() {
    let expected = r##""UNKNOWN_RISK_MANAGEMENT_TYPE""##;
    assert_eq!(
        expected,
        serde_json::to_string(ContractExpiryType::UnknownRiskManagementType.wire_name()).unwrap()
    );

    let expected = r##""EXPIRING""##;
    assert_eq!(
        expected,
        serde_json::to_string(ContractExpiryType::Expiring.wire_name()).unwrap()
    );
}

#[test]
fn test_fcm_trading_session_details_deserialize() {
    let input = r##"{
        "is_session_open": false,
        "open_time": "2023-07-05T05:30:57.651784Z",
        "close_time": "2023-07-06T05:30:57.651784Z"
    }"##;
    let doc = parse_document(input).unwrap();
    let result = FcmTradingSessionDetails::from_json(&doc).unwrap();
    assert!(!result.is_session_open);
}

#[test]
fn test_perpetual_details_deserialize() {
    let input = r##"{
        "open_interest": "1.234",
        "funding_rate": "0.05123",
        "funding_time": "2023-07-06T05:30:57.651784Z"
    }"##;
    let doc = parse_document(input).unwrap();
    let result = PerpetualDetails::from_json(&doc).unwrap();
    assert_eq!(result.open_interest, "1.234");
}

#[test]
fn test_future_product_details_deserialize() {
    let input = r##"{
        "venue": "string",
        "contract_code": "string",
        "contract_expiry": "2023-07-06T05:30:57.651784Z",
        "contract_size": "string",
        "contract_root_unit": "string",
        "group_description": "string",
        "contract_expiry_timezone": "string",
        "group_short_description": "string",
        "risk_managed_by": "UNKNOWN_RISK_MANAGEMENT_TYPE",
        "contract_expiry_type": "UNKNOWN_CONTRACT_EXPIRY_TYPE",
        "perpetual_details": {
            "open_interest": "string",
            "funding_rate": "string",
            "funding_time": "2023-07-06T05:30:57.651784Z"
        },
        "contract_display_name": "string"
    }"##;
    let doc = parse_document(input).unwrap();
    let result = FutureProductDetails::from_json(&doc).unwrap();
    assert_eq!(result.perpetual_details.open_interest, "string".to_string());
}

#[test]
fn test_granularity_deserialize() {
    let input = r##""UNKNOWN_GRANULARITY""##;
    let s: String = serde_json::from_str(input).unwrap();
    assert_eq!(Granularity::from_wire(&s), Some(Granularity::UnknownGranularity));

    let input = r##""ONE_MINUTE""##;
    let s: String = serde_json::from_str(input).unwrap();
    assert_eq!(Granularity::from_wire(&s), Some(Granularity::OneMinute));

    let input = r##""FIVE_MINUTE""##;
    let s: String = serde_json::from_str(input).unwrap();
    assert_eq!(Granularity::from_wire(&s), Some(Granularity::FiveMinute));

    let input = r##""FIFTEEN_MINUTE""##;
    let s: String = serde_json::from_str(input).unwrap();
    assert_eq!(Granularity::from_wire(&s), Some(Granularity::FifteenMinute));

    let input = r##""THIRTY_MINUTE""##;
    let s: String = serde_json::from_str(input).unwrap();
    assert_eq!(Granularity::from_wire(&s), Some(Granularity::ThirtyMinute));

    let input = r##""ONE_HOUR""##;
    let s: String = serde_json::from_str(input).unwrap();
    assert_eq!(Granularity::from_wire(&s), Some(Granularity::OneHour));

    let input = r##""TWO_HOUR""##;
    let s: String = serde_json::from_str(input).unwrap();
    assert_eq!(Granularity::from_wire(&s), Some(Granularity::TwoHour));

    let input = r##""SIX_HOUR""##;
    let s: String = serde_json::from_str(input).unwrap();
    assert_eq!(Granularity::from_wire(&s), Some(Granularity::SixHour));

    let input = r##""ONE_DAY""##;
    let s: String = serde_json::from_str(input).unwrap();
    assert_eq!(Granularity::from_wire(&s), Some(Granularity::OneDay));
}

#[test]
fn test_granularity_serialize() {
    let expected = r##""ONE_MINUTE""##;
    assert_eq!(expected, serde_json::to_string(Granularity::OneMinute.wire_name()).unwrap());
}

#[test]
fn test_candle_deserialize() {
    let input = r##"{
        "start": "1639508050",
        "low": "140.21",
        "high": "140.21",
        "open": "140.21",
        "close": "140.21",
        "volume": "56437345"
    }"##;
    let doc = parse_document(input).unwrap();
    let result = Candle::from_json(&doc).unwrap();
    assert_eq!(result.start, "1639508050");
}

#[test]
fn test_tradeside_deserialize() {
    let input = r##""UNKNOWN_ORDER_SIDE""##;
    let s: String = serde_json::from_str(input).unwrap();
    assert_eq!(Side::from_wire(&s), Some(Side::UnknownOrderSide));

    let input = r##""BUY""##;
    let s: String = serde_json::from_str(input).unwrap();
    assert_eq!(Side::from_wire(&s), Some(Side::Buy));

    let input = r##""SELL""##;
    let s: String = serde_json::from_str(input).unwrap();
    assert_eq!(Side::from_wire(&s), Some(Side::Sell));
}

#[test]
fn test_tradeside_serialize() {
    let expected = r##""BUY""##;
    assert_eq!(expected, serde_json::to_string(Side::Buy.wire_name()).unwrap());
}

#[test]
fn test_trade_response_deserialize() {
    let input = r##"{
        "trade_id":"796313",
        "product_id":"OGN-BTC",
        "price":"0.00000318",
        "size":"1.48",
        "time":"2023-08-11T21:37:07.361937Z",
        "side":"BUY",
        "bid":"",
        "ask":""
    }"##;
    let doc = parse_document(input).unwrap();
    let result = Trade::from_json(&doc).unwrap();
    assert_eq!(result.product_id, "OGN-BTC".to_string());
}

#[test]
fn test_market_trade_response_deserialize() {
    let input = r##"{
        "trades":[
            {
                "trade_id":"796313",
                "product_id":"OGN-BTC",
                "price":"0.00000318",
                "size":"1.48",
                "time":"2023-08-11T21:37:07.361937Z",
                "side":"BUY",
                "bid":"",
                "ask":""
            },
            {
                "trade_id":"796312",
                "product_id":"OGN-BTC",
                "price":"0.00000318",
                "size":"4.58",
                "time":"2023-08-11T21:37:07.361937Z",
                "side":"BUY",
                "bid":"",
                "ask":""
            },
            {
                "trade_id":"796311",
                "product_id":"OGN-BTC",
                "price":"0.00000318",
                "size":"6.06",
                "time":"2023-08-11T21:25:56.961648Z",
                "side":"BUY",
                "bid":"",
                "ask":""
            }
        ],
        "best_bid":"0.00000318",
        "best_ask":"0.0000032"
    }"##;
    let doc = parse_document(input).unwrap();
    let result = MarketTrades::from_json(&doc).unwrap();
    assert_eq!(result.trades[0].product_id, "OGN-BTC".to_string());
}

#[test]
fn test_tradetype_deserialize() {
    let input = r##""FILL""##;
    let s: String = serde_json::from_str(input).unwrap();
    assert_eq!(TradeType::from_wire(&s), Some(TradeType::Fill));

    let input = r##""REVERSAL""##;
    let s: String = serde_json::from_str(input).unwrap();
    assert_eq!(TradeType::from_wire(&s), Some(TradeType::Reversal));

    let input = r##""CORRECTION""##;
    let s: String = serde_json::from_str(input).unwrap();
    assert_eq!(TradeType::from_wire(&s), Some(TradeType::Correction));

    let input = r##""SYNTHETIC""##;
    let s: String = serde_json::from_str(input).unwrap();
    assert_eq!(TradeType::from_wire(&s), Some(TradeType::Synthetic));
}

#[test]
fn test_tradetype() {
    let expected = r##""FILL""##;
    assert_eq!(expected, serde_json::to_string(TradeType::Fill.wire_name()).unwrap());
}

use coinbase_v3::datetime::UtcTimestamp;
use coinbase_v3::json::{parse_document, FromJson};
use coinbase_v3::orders::{create_limit_order_good_til_canceled, create_limit_order_good_til_date,
    create_market_order, create_stop_limit_order_good_til_canceled,
    create_stop_limit_order_good_til_date, CancelOrdersResponse, CreateOrderResponse, OrderSide,
    OrderPlacementSource, OrderResponse, OrderType, RejectReason, Status, StopDirection,
    TimeInForce, TriggerStatus};

#[test]
fn test_order_deserialize() {
    let input = r##"{
        "order": {
            "order_id": "0000-000000-000000",
            "product_id": "BTC-USD",
            "user_id": "2222-000000-000000",
            "order_configuration": {
                "market_market_ioc": {
                    "quote_size": "10.00",
                    "base_size": "0.001"
                },
                "limit_limit_gtc": {
                    "base_size": "0.001",
                    "limit_price": "10000.00",
                    "post_only": false
                },
                "limit_limit_gtd": {
                    "base_size": "0.001",
                    "limit_price": "10000.00",
                    "end_time": "2021-05-31T09:59:59Z",
                    "post_only": false
                },
                "stop_limit_stop_limit_gtc": {
                    "base_size": "0.001",
                    "limit_price": "10000.00",
                    "stop_price": "20000.00",
                    "stop_direction": "UNKNOWN_STOP_DIRECTION"
                },
                "stop_limit_stop_limit_gtd": {
                    "base_size": "0.001",
                    "limit_price": "10000.00",
                    "stop_price": "20000.00",
                    "end_time": "2021-05-31T09:59:59Z",
                    "stop_direction": "UNKNOWN_STOP_DIRECTION"
                }
            },
            "side": "UNKNOWN_ORDER_SIDE",
            "client_order_id": "11111-000000-000000",
            "status": "OPEN",
            "time_in_force": "UNKNOWN_TIME_IN_FORCE",
            "created_time": "2021-05-31T09:59:59Z",
            "completion_percentage": "50",
            "filled_size": "0.001",
            "average_filled_price": "50",
            "fee": "string",
            "number_of_fills": "2",
            "filled_value": "10000",
            "pending_cancel": true,
            "size_in_quote": false,
            "total_fees": "5.00",
            "size_inclusive_of_fees": false,
            "total_value_after_fees": "string",
            "trigger_status": "UNKNOWN_TRIGGER_STATUS",
            "order_type": "UNKNOWN_ORDER_TYPE",
            "reject_reason": "REJECT_REASON_UNSPECIFIED",
            "settled": false,
            "product_type": "SPOT",
            "reject_message": "string",
            "cancel_message": "string",
            "order_placement_source": "RETAIL_ADVANCED",
            "outstanding_hold_amount": "string",
            "is_liquidation": false
        }
    }"##;
    let doc = parse_document(input).unwrap();
    let result = OrderResponse::from_json(&doc).unwrap();
    let order = result.order;
    assert_eq!(order.product_id, "BTC-USD".to_string());
    assert!(!order
        .order_configuration
        .limit_limit_gtc
        .unwrap()
        .post_only
        .unwrap());
}

#[test]
fn test_stop_direction_deserialize() {
    let input = r##""UNKNOWN_STOP_DIRECTION""##;
    let s: String = serde_json::from_str(input).unwrap();
    assert_eq!(StopDirection::from_wire(&s), Some(StopDirection::UnknownStopDirection));

    let input = r##""STOP_DIRECTION_STOP_UP""##;
    let s: String = serde_json::from_str(input).unwrap();
    assert_eq!(StopDirection::from_wire(&s), Some(StopDirection::StopDirectionStopUp));

    let input = r##""STOP_DIRECTION_STOP_DOWN""##;
    let s: String = serde_json::from_str(input).unwrap();
    assert_eq!(StopDirection::from_wire(&s), Some(StopDirection::StopDirectionStopDown));
}

#[test]
fn test_stop_direction_serialize() {
    let expected = r##""STOP_DIRECTION_STOP_DOWN""##;
    assert_eq!(
        expected,
        serde_json::to_string(StopDirection::StopDirectionStopDown.wire_name()).unwrap()
    );
}

#[test]
fn test_status_deserialize() {
    let input = r##""OPEN""##;
    let s: String = serde_json::from_str(input).unwrap();
    assert_eq!(Status::from_wire(&s), Some(Status::Open));

    let input = r##""FILLED""##;
    let s: String = serde_json::from_str(input).unwrap();
    assert_eq!(Status::from_wire(&s), Some(Status::Filled));

    let input = r##""CANCELLED""##;
    let s: String = serde_json::from_str(input).unwrap();
    assert_eq!(Status::from_wire(&s), Some(Status::Cancelled));

    let input = r##""EXPIRED""##;
    let s: String = serde_json::from_str(input).unwrap();
    assert_eq!(Status::from_wire(&s), Some(Status::Expired));

    let input = r##""FAILED""##;
    let s: String = serde_json::from_str(input).unwrap();
    assert_eq!(Status::from_wire(&s), Some(Status::Failed));

    let input = r##""UNKNOWN_ORDER_STATUS""##;
    let s: String = serde_json::from_str(input).unwrap();
    assert_eq!(Status::from_wire(&s), Some(Status::UnknownOrderStatus));
}

#[test]
fn test_status_serialize() {
    let expected = r##""FILLED""##;
    assert_eq!(expected, serde_json::to_string(Status::Filled.wire_name()).unwrap());
}

#[test]
fn test_time_in_force_deserialize() {
    let input = r##""UNKNOWN_TIME_IN_FORCE""##;
    let s: String = serde_json::from_str(input).unwrap();
    assert_eq!(TimeInForce::from_wire(&s), Some(TimeInForce::UnknownTimeInForce));

    let input = r##""GOOD_UNTIL_DATE_TIME""##;
    let s: String = serde_json::from_str(input).unwrap();
    assert_eq!(TimeInForce::from_wire(&s), Some(TimeInForce::GoodUntilDateTime));

    let input = r##""GOOD_UNTIL_CANCELLED""##;
    let s: String = serde_json::from_str(input).unwrap();
    assert_eq!(TimeInForce::from_wire(&s), Some(TimeInForce::GoodUntilCancelled));

    let input = r##""IMMEDIATE_OR_CANCEL""##;
    let s: String = serde_json::from_str(input).unwrap();
    assert_eq!(TimeInForce::from_wire(&s), Some(TimeInForce::ImmediateOrCancel));

    let input = r##""FILL_OR_KILL""##;
    let s: String = serde_json::from_str(input).unwrap();
    assert_eq!(TimeInForce::from_wire(&s), Some(TimeInForce::FillOrKill));
}

#[test]
fn test_time_in_force_serialize() {
    let expected = r##""GOOD_UNTIL_CANCELLED""##;
    assert_eq!(
        expected,
        serde_json::to_string(TimeInForce::GoodUntilCancelled.wire_name()).unwrap()
    );
}

#[test]
fn test_trigger_status_deserialize() {
    let input = r##""UNKNOWN_TRIGGER_STATUS""##;
    let s: String = serde_json::from_str(input).unwrap();
    assert_eq!(TriggerStatus::from_wire(&s), Some(TriggerStatus::UnknownTriggerStatus));

    let input = r##""INVALID_ORDER_TYPE""##;
    let s: String = serde_json::from_str(input).unwrap();
    assert_eq!(TriggerStatus::from_wire(&s), Some(TriggerStatus::InvalidOrderType));

    let input = r##""STOP_PENDING""##;
    let s: String = serde_json::from_str(input).unwrap();
    assert_eq!(TriggerStatus::from_wire(&s), Some(TriggerStatus::StopPending));

    let input = r##""STOP_TRIGGERED""##;
    let s: String = serde_json::from_str(input).unwrap();
    assert_eq!(TriggerStatus::from_wire(&s), Some(TriggerStatus::StopTriggered));
}

#[test]
fn test_trigger_status_serialize() {
    let expected = r##""INVALID_ORDER_TYPE""##;
    assert_eq!(
        expected,
        serde_json::to_string(TriggerStatus::InvalidOrderType.wire_name()).unwrap()
    );
}

#[test]
fn test_order_type_deserialize() {
    let input = r##""UNKNOWN_ORDER_TYPE""##;
    let s: String = serde_json::from_str(input).unwrap();
    assert_eq!(OrderType::from_wire(&s), Some(OrderType::UnknownOrderType));

    let input = r##""MARKET""##;
    let s: String = serde_json::from_str(input).unwrap();
    assert_eq!(OrderType::from_wire(&s), Some(OrderType::Market));

    let input = r##""LIMIT""##;
    let s: String = serde_json::from_str(input).unwrap();
    assert_eq!(OrderType::from_wire(&s), Some(OrderType::Limit));

    let input = r##""STOP""##;
    let s: String = serde_json::from_str(input).unwrap();
    assert_eq!(OrderType::from_wire(&s), Some(OrderType::Stop));

    let input = r##""STOP_LIMIT""##;
    let s: String = serde_json::from_str(input).unwrap();
    assert_eq!(OrderType::from_wire(&s), Some(OrderType::StopLimitOrderType));
}

#[test]
fn test_order_type_serialize() {
    let expected = r##""MARKET""##;
    assert_eq!(expected, serde_json::to_string(OrderType::Market.wire_name()).unwrap());
}

#[test]
fn test_reject_reason_deserialize() {
    let input = r##""REJECT_REASON_UNSPECIFIED""##;
    let s: String = serde_json::from_str(input).unwrap();
    assert_eq!(RejectReason::from_wire(&s), Some(RejectReason::RejectReasonUnspecified));
}

#[test]
fn test_reject_reason_serialize() {
    let expected = r##""REJECT_REASON_UNSPECIFIED""##;
    assert_eq!(
        expected,
        serde_json::to_string(RejectReason::RejectReasonUnspecified.wire_name()).unwrap()
    );
}

#[test]
fn test_order_placement_source_deserialize() {
    let input = r##""RETAIL_SIMPLE""##;
    let s: String = serde_json::from_str(input).unwrap();
    assert_eq!(
        OrderPlacementSource::from_wire(&s),
        Some(OrderPlacementSource::RetailSimple)
    );

    let input = r##""RETAIL_ADVANCED""##;
    let s: String = serde_json::from_str(input).unwrap();
    assert_eq!(
        OrderPlacementSource::from_wire(&s),
        Some(OrderPlacementSource::RetailAdvanced)
    );
}

#[test]
fn test_order_placement_source_serialize() {
    let expected = r##""RETAIL_SIMPLE""##;
    assert_eq!(
        expected,
        serde_json::to_string(OrderPlacementSource::RetailSimple.wire_name()).unwrap()
    );
}

#[test]
fn test_create_market_order_serialize() {
    let product_id = "BTC-USD";
    let side = OrderSide::Buy;
    let order_size = "0.00001";
    let order = create_market_order(product_id, side, order_size).unwrap();
    let json = order.to_json_text();
    assert!(serde_json::from_str::<serde_json::Value>(&json).is_ok());
}

#[test]
fn test_create_limit_order_good_til_canceled_serialize() {
    let product_id = "BTC-USD";
    let side = OrderSide::Buy;
    let base_size = "0.00001";
    let limit_price = "5000";
    let post_only = false;
    let order = create_limit_order_good_til_canceled(
        product_id,
        side,
        base_size,
        limit_price,
        post_only,
    )
    .unwrap();
    let json = order.to_json_text();
    assert!(serde_json::from_str::<serde_json::Value>(&json).is_ok());
}

#[test]
fn test_create_limit_order_good_til_date_serialize() {
    let product_id = "BTC-USD";
    let side = OrderSide::Buy;
    let base_size = "0.00001";
    let limit_price = "5000";
    let end_time = UtcTimestamp { secs: 1622455199 };
    let post_only = false;
    let order = create_limit_order_good_til_date(
        product_id,
        side,
        base_size,
        limit_price,
        end_time,
        post_only,
    )
    .unwrap();
    let json = order.to_json_text();
    assert!(serde_json::from_str::<serde_json::Value>(&json).is_ok());
}

#[test]
fn test_create_stop_limit_order_good_til_canceled_serialize() {
    let product_id = "BTC-USD";
    let side = OrderSide::Buy;
    let base_size = "0.00001";
    let limit_price = "5000";
    let stop_price = "4000";
    let stop_direction = StopDirection::StopDirectionStopUp;
    let order = create_stop_limit_order_good_til_canceled(
        product_id,
        side,
        base_size,
        limit_price,
        stop_price,
        stop_direction,
    )
    .unwrap();
    let json = order.to_json_text();
    assert!(serde_json::from_str::<serde_json::Value>(&json).is_ok());
}

#[test]
fn test_create_stop_limit_order_good_til_date_serialize() {
    let product_id = "BTC-USD";
    let side = OrderSide::Buy;
    let base_size = "0.00001";
    let limit_price = "5000";
    let stop_price = "4000";
    let end_time = UtcTimestamp { secs: 1622455199 };
    let stop_direction = StopDirection::StopDirectionStopUp;
    let order = create_stop_limit_order_good_til_date(
        product_id,
        side,
        base_size,
        limit_price,
        stop_price,
        end_time,
        stop_direction,
    )
    .unwrap();
    let json = order.to_json_text();
    assert!(serde_json::from_str::<serde_json::Value>(&json).is_ok());
}

#[test]
fn test_order_response_serde() {
    let input = r##"{
      "success": true,
      "failure_reason": "INVALID_SIDE",
      "order_id": "string",
      "success_response": {
        "order_id": "11111-00000-000000",
        "product_id": "BTC-USD",
        "side": "UNKNOWN_ORDER_SIDE",
        "client_order_id": "0000-00000-000000"
      },
      "error_response": {
        "error": "UNKNOWN_FAILURE_REASON",
        "message": "The order configuration was invalid",
        "error_details": "Market orders cannot be placed with empty order sizes",
        "preview_failure_reason": "UNKNOWN_PREVIEW_FAILURE_REASON",
        "new_order_failure_reason": "UNKNOWN_FAILURE_REASON"
      },
      "order_configuration": {
        "market_market_ioc": {
          "quote_size": "10.00",
          "base_size": "0.001"
        },
        "limit_limit_gtc": {
          "base_size": "0.001",
          "limit_price": "10000.00",
          "post_only": false
        },
        "limit_limit_gtd": {
          "base_size": "0.001",
          "limit_price": "10000.00",
          "end_time": "2021-05-31T09:59:59Z",
          "post_only": false
        },
        "stop_limit_stop_limit_gtc": {
          "base_size": "0.001",
          "limit_price": "10000.00",
          "stop_price": "20000.00",
          "stop_direction": "UNKNOWN_STOP_DIRECTION"
        },
        "stop_limit_stop_limit_gtd": {
          "base_size": 0.001,
          "limit_price": "10000.00",
          "stop_price": "20000.00",
          "end_time": "2021-05-31T09:59:59Z",
          "stop_direction": "UNKNOWN_STOP_DIRECTION"
        }
      }
    }"##;
    let doc = parse_document(input).unwrap();
    let result = CreateOrderResponse::from_json(&doc).unwrap();
    assert!(result.success);
    assert!(!result
        .order_configuration
        .limit_limit_gtc
        .unwrap()
        .post_only
        .unwrap());
}

#[test]
fn test_order_response_success_serde() {
    let input = r##"{
        "success": true,
        "failure_reason": "UNKNOWN_FAILURE_REASON",
        "order_id": "11111111-4c82-40e2-980a-222222222222",
        "success_response": {
            "order_id": "11111111-4c82-40e2-980a-222222222222",
            "product_id": "BTC-USDT",
            "side": "BUY",
            "client_order_id": "33333333-74f5-4508-8b9a-222222222222"
        },
        "order_configuration": {
            "limit_limit_gtd": {
                "base_size": "1.000000000000000",
                "limit_price": "0.01000000000000000",
                "end_time": "2023-08-17T04:59:45.166512756Z",
                "post_only": false
            }
        }
    }"##;
    let doc = parse_document(input).unwrap();
    let result = CreateOrderResponse::from_json(&doc).unwrap();
    assert!(result.success);
    assert!(!result
        .order_configuration
        .limit_limit_gtd
        .unwrap()
        .post_only
        .unwrap());
}

#[test]
fn test_cancel_orders_response_serde() {
    let input = r##"{
        "results": [
            {
                "success":false,
                "failure_reason": "UNKNOWN_CANCEL_ORDER",
                "order_id": "foo"
            }
        ]
    }"##;
    let doc = parse_document(input).unwrap();
    let results = CancelOrdersResponse::from_json(&doc).unwrap();
    let result = &results.results[0];
    assert!(!result.success);
}

#[test]
fn test_create_market_order_rejects_unknown_side() {
    let r = create_market_order("BTC-USD", OrderSide::UnknownOrderSide, "1.5");
    assert!(matches!(
        r,
        Err(coinbase_v3::error::CbError::InvalidOrder { .. })
    ));
}

#[test]
fn test_create_market_order_rejects_bad_size() {
    let r = create_market_order("BTC-USD", OrderSide::Buy, "a lot");
    assert!(matches!(
        r,
        Err(coinbase_v3::error::CbError::InvalidOrder { .. })
    ));
}

#[test]
fn test_market_order_body_shape() {
    let order = create_market_order("BTC-USD", OrderSide::Sell, "2.25").unwrap();
    let json = order.to_json_text();
    let v: serde_json::Value = serde_json::from_str(&json).unwrap();
    assert_eq!(v["product_id"], "BTC-USD");
    assert_eq!(v["side"], "SELL");
    assert_eq!(v["order_configuration"]["market_market_ioc"]["base_size"], "2.25");
    assert!(v["order_configuration"]["market_market_ioc"]["quote_size"].is_null());
    assert!(v["order_configuration"]["limit_limit_gtc"].is_null());
    let id = v["client_order_id"].as_str().unwrap();
    assert_eq!(id.len(), 36);
    assert!(uuid::Uuid::parse_str(id).is_ok());
}

#[test]
fn test_limit_order_gtd_body_end_time() {
    let order = create_limit_order_good_til_date(
        "BTC-USD",
        OrderSide::Buy,
        "1",
        "5000",
        UtcTimestamp { secs: 1622455199 },
        true,
    )
    .unwrap();
    let json = order.to_json_text();
    let v: serde_json::Value = serde_json::from_str(&json).unwrap();
    assert_eq!(
        v["order_configuration"]["limit_limit_gtd"]["end_time"],
        "2021-05-31T09:59:59Z"
    );
    assert_eq!(v["order_configuration"]["limit_limit_gtd"]["post_only"], true);
}

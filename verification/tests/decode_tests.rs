use coinbase_v3::client::unpack_response;
use coinbase_v3::json::{parse_document, FromJson, JsonValue};
use coinbase_v3::orders::{create_market_order, FillsResponse, OrderSide};
use coinbase_v3::orders::cancel_order_body;
use coinbase_v3::pagination::{PageMode, Paginator};
use coinbase_v3::products::TradeType;

#[test]
fn test_fills_envelope_decode() {
    let input = r##"{
        "fills": [
            {
                "entry_id": "e-1",
                "trade_id": "t-1",
                "order_id": "o-1",
                "trade_time": "2023-08-11T21:37:07.361937Z",
                "trade_type": "FILL",
                "price": "100.5",
                "size": "0.25",
                "commission": "0.01",
                "product_id": "BTC-USD",
                "sequence_timestamp": "2023-08-11T21:37:07.361937Z",
                "liquidity_indicator": "MAKER",
                "size_in_quote": false,
                "user_id": "u-1",
                "side": "BUY"
            }
        ],
        "cursor": "c1"
    }"##;
    let envelope = unpack_response::<FillsResponse>(input).unwrap();
    assert_eq!(envelope.fills.len(), 1);
    assert_eq!(envelope.fills[0].trade_type, TradeType::Fill);
    assert_eq!(envelope.cursor, "c1");
    let page = envelope.into_page();
    assert!(!page.has_next);
    assert_eq!(page.cursor, "c1");
}

fn fill_json(entry: &str) -> String {
    format!(
        r##"{{
            "entry_id": "{}",
            "trade_id": "t-1",
            "order_id": "o-1",
            "trade_time": "2023-08-11T21:37:07.361937Z",
            "trade_type": "FILL",
            "price": "100.5",
            "size": "0.25",
            "commission": "0.01",
            "product_id": "BTC-USD",
            "sequence_timestamp": "2023-08-11T21:37:07.361937Z",
            "liquidity_indicator": "MAKER",
            "size_in_quote": false,
            "user_id": "u-1",
            "side": "BUY"
        }}"##,
        entry
    )
}

#[test]
fn test_fills_pagination_empty_cursor_convention() {
    // Three canned fill pages ending with an empty cursor: exactly three
    // batches, and the cursors of the first two pages drive the next
    // requests.
    let bodies = [
        format!(r##"{{ "fills": [{}], "cursor": "f1" }}"##, fill_json("e-1")),
        format!(r##"{{ "fills": [{}], "cursor": "f2" }}"##, fill_json("e-2")),
        format!(r##"{{ "fills": [{}], "cursor": "" }}"##, fill_json("e-3")),
    ];
    let mut paginator = Paginator::new(PageMode::EmptyCursor, None);
    let mut served = 0;
    let mut cursors_seen: Vec<Option<String>> = Vec::new();
    let mut batches = Vec::new();
    while !paginator.is_done() {
        cursors_seen.push(paginator.current_cursor());
        let envelope = unpack_response::<FillsResponse>(&bodies[served]).unwrap();
        served += 1;
        let page = envelope.into_page();
        paginator.feed(page.has_next, page.cursor);
        batches.push(page.items);
    }
    assert_eq!(served, 3);
    assert_eq!(batches.len(), 3);
    assert_eq!(batches[0][0].entry_id, "e-1");
    assert_eq!(batches[2][0].entry_id, "e-3");
    assert_eq!(
        cursors_seen,
        vec![None, Some("f1".to_string()), Some("f2".to_string())]
    );
}

#[test]
fn test_json_escaping_round_trip() {
    // A product id full of characters that need escaping must survive a
    // round trip through the crate's writer and the reference parser.
    let odd = "A\"B\\C\nD\tE\u{1}F";
    let order = create_market_order(odd, OrderSide::Buy, "1").unwrap();
    let v: serde_json::Value = serde_json::from_str(&order.to_json_text()).unwrap();
    assert_eq!(v["product_id"].as_str().unwrap(), odd);
}

#[test]
fn test_cancel_body_shape() {
    let body = cancel_order_body(&vec!["a-1".to_string(), "b-2".to_string()]);
    assert_eq!(body, r##"{"order_ids":["a-1","b-2"]}"##);
    let v: serde_json::Value = serde_json::from_str(&body).unwrap();
    assert_eq!(v["order_ids"][1], "b-2");
}

#[test]
fn test_parse_document_matches_reference_parser() {
    // The trusted parse boundary must agree with serde_json's own tree.
    let body = r##"{"a": [1, true, null, "x"], "b": {"c": -2.5}}"##;
    let doc = parse_document(body).unwrap();
    match &doc {
        JsonValue::Object(fields) => {
            assert_eq!(fields.len(), 2);
            assert_eq!(fields[0].0, "a");
            match &fields[0].1 {
                JsonValue::Array(xs) => {
                    assert_eq!(xs.len(), 4);
                    assert_eq!(xs[0], JsonValue::Number("1".to_string()));
                    assert_eq!(xs[1], JsonValue::Bool(true));
                    assert_eq!(xs[2], JsonValue::Null);
                    assert_eq!(xs[3], JsonValue::Text("x".to_string()));
                },
                other => panic!("expected an array, got {:?}", other),
            }
        },
        other => panic!("expected an object, got {:?}", other),
    }
    assert_eq!(parse_document("{oops"), None);
}

use coinbase_v3::accounts::{Account, AccountResponse, AccountsResponse};
use coinbase_v3::basic_oauth::OAuthCbClient;
use coinbase_v3::client::{unpack_response, CbClient, HttpMethod};
use coinbase_v3::client::{get_list_accounts_uri, get_list_fills_uri, get_list_orders_uri,
    get_market_trades_uri, get_product_book_uri, get_product_candles_uri, get_product_uri,
    get_transactions_summary_uri};
use coinbase_v3::datetime::UtcTimestamp;
use coinbase_v3::error::CbError;
use coinbase_v3::orders::Status;
use coinbase_v3::products::Granularity;

fn account_json(uuid: &str, name: &str, value: &str) -> String {
    format!(
        r##"{{
        "uuid": "{}",
        "name": "{}",
        "currency": "SOL",
        "available_balance": {{ "value": "{}", "currency": "SOL" }},
        "default": true,
        "active": true,
        "created_at": "2023-06-07T17:30:40.425Z",
        "deleted_at": null,
        "type": "ACCOUNT_TYPE_CRYPTO",
        "ready": true,
        "hold": {{ "value": "0", "currency": "SOL" }}
    }}"##,
        uuid, name, value
    )
}

const SERVICE_ERROR_BODY: &str = r##"{
    "error": "PERMISSION_DENIED",
    "code": 403,
    "message": "the token has expired",
    "details": { "type_url": "type.example/err", "value": 7 }
}"##;

#[test]
fn test_decode_success_wins_over_error_schema() {
    // A body that satisfies the success schema and the error schema at
    // once: the success parse must win, so no service error surfaces.
    let body = r##"{
        "accounts": [],
        "has_next": false,
        "cursor": "",
        "size": 0,
        "error": "PERMISSION_DENIED",
        "code": 403,
        "message": "not really",
        "details": { "type_url": "t", "value": 1 }
    }"##;
    let r = unpack_response::<AccountsResponse>(body);
    let envelope = r.unwrap();
    assert_eq!(envelope.accounts.len(), 0);
    assert!(!envelope.has_next);
}

#[test]
fn test_decode_service_error() {
    let r = unpack_response::<AccountsResponse>(SERVICE_ERROR_BODY);
    match r {
        Err(CbError::Coinbase(e)) => {
            assert_eq!(e.error, "PERMISSION_DENIED");
            assert_eq!(e.code, 403);
            assert_eq!(e.message, "the token has expired");
            assert_eq!(e.details.type_url, "type.example/err");
            assert_eq!(e.details.value, 7);
        },
        other => panic!("expected a service error, got {:?}", other),
    }
}

#[test]
fn test_error_code_out_of_range_fails_schema() {
    // A service-error body whose code does not fit a 32-bit integer
    // satisfies neither schema.
    let body = r##"{
        "error": "E",
        "code": 99999999999,
        "message": "m",
        "details": { "type_url": "t", "value": 1 }
    }"##;
    assert!(matches!(
        unpack_response::<AccountsResponse>(body),
        Err(CbError::Serde { .. })
    ));
}

#[test]
fn test_decode_neither_schema() {
    let body = r##"{"neither": "schema"}"##;
    match unpack_response::<AccountsResponse>(body) {
        Err(CbError::Serde { body: kept, .. }) => assert_eq!(kept, body),
        other => panic!("expected a decode failure, got {:?}", other),
    }
    let body = "this is not json at all";
    match unpack_response::<AccountsResponse>(body) {
        Err(CbError::Serde { body: kept, .. }) => assert_eq!(kept, body),
        other => panic!("expected a decode failure, got {:?}", other),
    }
}

#[test]
fn test_list_accounts_uri_expansion() {
    let uri = get_list_accounts_uri(Some(4), None);
    assert_eq!(uri, "https://api.coinbase.com/api/v3/brokerage/accounts?limit=4");
    let uri = get_list_accounts_uri(Some(4), Some("c-2".to_string()));
    assert_eq!(
        uri,
        "https://api.coinbase.com/api/v3/brokerage/accounts?limit=4&cursor=c-2"
    );
    let uri = get_list_accounts_uri(None, None);
    assert_eq!(uri, "https://api.coinbase.com/api/v3/brokerage/accounts");
}

#[test]
fn test_path_uris() {
    assert_eq!(
        get_product_uri("BTC-USD"),
        "https://api.coinbase.com/api/v3/brokerage/products/BTC-USD"
    );
    assert_eq!(
        get_market_trades_uri("OGN-BTC", 25),
        "https://api.coinbase.com/api/v3/brokerage/products/OGN-BTC/ticker?limit=25"
    );
    assert_eq!(
        get_product_candles_uri(
            "BTC-USD",
            UtcTimestamp { secs: 1622455199 },
            UtcTimestamp { secs: 1622458799 },
            Granularity::OneHour
        ),
        "https://api.coinbase.com/api/v3/brokerage/products/BTC-USD/candles?start=1622455199&end=1622458799&granularity=ONE_HOUR"
    );
}

#[test]
fn test_path_segment_percent_encoding() {
    // The crate's own path encoder must agree with the template
    // engine's simple expansion, reserved and non-ASCII characters
    // included.
    assert_eq!(
        get_product_uri("BTC/USD é"),
        "https://api.coinbase.com/api/v3/brokerage/products/BTC%2FUSD%20%C3%A9"
    );
    let engine = uritemplate::UriTemplate::new("{id}").set("id", "BTC/USD é").build();
    assert_eq!(engine, "BTC%2FUSD%20%C3%A9");
}

#[test]
fn test_query_uris_with_datetimes() {
    let uri = get_transactions_summary_uri(
        Some(UtcTimestamp { secs: 1622455199 }),
        None,
        &Some("USD".to_string()),
        None,
        None,
    );
    assert_eq!(
        uri,
        "https://api.coinbase.com/api/v3/brokerage/transaction_summary?start_date=2021-05-31T09%3A59%3A59Z&user_native_currency=USD"
    );
    let uri = get_list_fills_uri(
        &Some("ord-1".to_string()),
        &None,
        &None,
        &None,
        &Some(7i64),
        &Some("cc".to_string()),
    );
    assert_eq!(
        uri,
        "https://api.coinbase.com/api/v3/brokerage/orders/historical/fills?order_id=ord-1&limit=7&cursor=cc"
    );
}

#[test]
fn test_list_orders_uri_expansion() {
    let uri = get_list_orders_uri(
        &Some("BTC-USD".to_string()),
        &Some(vec![Status::Open, Status::Filled]),
        &Some(5),
        &None,
        &None,
        &None,
        &None,
        &None,
        &None,
        &None,
        &None,
        &None,
    );
    assert_eq!(
        uri,
        "https://api.coinbase.com/api/v3/brokerage/orders/historical/batch?product_id=BTC-USD&order_status=OPEN&order_status=FILLED&limit=5"
    );
}

#[test]
fn test_product_book_uri_expansion() {
    let uri = get_product_book_uri("QSP-USDT", Some(2));
    assert_eq!(
        uri,
        "https://api.coinbase.com/api/v3/brokerage/product_book/?product_id=QSP-USDT&limit=2"
    );
}

/// A canned transport for the end-to-end scenario: hands out one body
/// per expected URL and counts the calls.
struct CannedTransport {
    expected: Vec<(String, String)>,
    calls: usize,
}

impl CannedTransport {
    fn serve(&mut self, url: &str) -> String {
        assert!(self.calls < self.expected.len(), "no further calls were expected");
        let (expected_url, body) = &self.expected[self.calls];
        assert_eq!(url, expected_url);
        self.calls += 1;
        body.clone()
    }
}

#[test]
fn test_end_to_end_accounts_scenario() {
    // Authorize with one scope against a canned callback.
    let flow = OAuthCbClient::new(
        "client-id",
        "client-secret",
        "http://127.0.0.1:3001",
    )
    .unwrap();
    let mut flow = flow.add_scope("wallet:accounts:read").unwrap();
    let ctx = flow.begin_authorization();
    assert!(!ctx.state.is_empty());
    assert_eq!(ctx.redirect_url, "http://127.0.0.1:3001");
    assert_eq!(ctx.scopes, vec!["wallet:accounts:read".to_string()]);

    let line = format!("GET /?code=auth-code-1&state={} HTTP/1.1", ctx.state);
    flow.handle_callback(&line).unwrap();
    let exchange = flow.token_exchange_request();
    assert_eq!(exchange.code, "auth-code-1");
    assert_eq!(exchange.client_id, "client-id");
    flow.complete_authorization("access-token-1".to_string(), Some("refresh-token-1".to_string()));

    // List accounts with page size 4 against two canned pages (4 + 2).
    let client = CbClient::new(&flow);
    let uuids = [
        "00000000-0000-4000-8000-000000000001",
        "00000000-0000-4000-8000-000000000002",
        "00000000-0000-4000-8000-000000000003",
        "00000000-0000-4000-8000-000000000004",
        "00000000-0000-4000-8000-000000000005",
        "00000000-0000-4000-8000-000000000006",
    ];
    let page1_accounts: Vec<String> =
        (0..4).map(|i| account_json(uuids[i], &format!("W{}", i), "1.5")).collect();
    let page2_accounts: Vec<String> =
        (4..6).map(|i| account_json(uuids[i], &format!("W{}", i), "2.5")).collect();
    let page1 = format!(
        r##"{{ "accounts": [{}], "has_next": true, "cursor": "c-2", "size": 4 }}"##,
        page1_accounts.join(",")
    );
    let page2 = format!(
        r##"{{ "accounts": [{}], "has_next": false, "cursor": "", "size": 2 }}"##,
        page2_accounts.join(",")
    );
    let mut transport = CannedTransport {
        expected: vec![
            (get_list_accounts_uri(Some(4), None), page1),
            (get_list_accounts_uri(Some(4), Some("c-2".to_string())), page2),
        ],
        calls: 0,
    };

    let mut paginator =
        coinbase_v3::pagination::Paginator::new(coinbase_v3::pagination::PageMode::ExplicitFlag, None);
    let mut batches: Vec<Vec<Account>> = Vec::new();
    while !paginator.is_done() {
        let cursor = paginator.current_cursor();
        let request = client.list_accounts_request(Some(4), cursor);
        assert_eq!(request.method, HttpMethod::Get);
        assert_eq!(request.bearer, "access-token-1");
        let body = transport.serve(&request.url);
        let envelope = unpack_response::<AccountsResponse>(&body).unwrap();
        let page = envelope.into_page();
        paginator.feed(page.has_next, page.cursor);
        batches.push(page.items);
    }
    assert_eq!(transport.calls, 2);
    assert_eq!(batches.len(), 2);
    assert_eq!(batches[0].len(), 4);
    assert_eq!(batches[1].len(), 2);
    let total: usize = batches.iter().map(|b| b.len()).sum();
    assert_eq!(total, 6);

    // Fetch a single account by id from the last batch and compare it
    // field for field with the list entry.
    let wanted = &batches[1][1];
    let single_body = format!(r##"{{ "account": {} }}"##, account_json(uuids[5], "W5", "2.5"));
    let request = client.get_account_request(&wanted.uuid);
    assert_eq!(
        request.url,
        format!("https://api.coinbase.com/api/v3/brokerage/accounts/{}", uuids[5])
    );
    let fetched = unpack_response::<AccountResponse>(&single_body).unwrap();
    assert_eq!(&fetched.account, wanted);

    // Revocation prefers the refresh token.
    match flow.revocation_target() {
        coinbase_v3::basic_oauth::RevocationTarget::Refresh(t) => {
            assert_eq!(t, "refresh-token-1")
        },
        other => panic!("expected the refresh token, got {:?}", other),
    }
}

#[test]
fn test_csrf_mismatch_fails_closed() {
    let flow = OAuthCbClient::new("id", "client-secret", "http://127.0.0.1:3001").unwrap();
    let mut flow = flow.add_scope("wallet:accounts:read").unwrap();
    let ctx = flow.begin_authorization();
    let line = format!("GET /?code=auth-code-1&state=not-{} HTTP/1.1", ctx.state);
    let r = flow.handle_callback(&line);
    assert_eq!(r, Err(CbError::CsrfMismatch));
    // The flow failed closed: no token was stored, so no exchange
    // material and no authenticated request can come out of it.
    assert!(!flow.is_authorized());
}

#[test]
fn test_failed_attempt_can_be_retried() {
    let flow = OAuthCbClient::new("id", "client-secret", "http://127.0.0.1:3001").unwrap();
    let mut flow = flow.add_scope("wallet:accounts:read").unwrap();
    let ctx = flow.begin_authorization();
    let line = format!("GET /?code=c&state=not-{} HTTP/1.1", ctx.state);
    assert_eq!(flow.handle_callback(&line), Err(CbError::CsrfMismatch));
    flow.retry_authorization();
    let ctx2 = flow.begin_authorization();
    let line = format!("GET /?code=second-code&state={} HTTP/1.1", ctx2.state);
    flow.handle_callback(&line).unwrap();
    assert_eq!(flow.token_exchange_request().code, "second-code");
}

#[test]
fn test_callback_parse_failures() {
    let flow = OAuthCbClient::new("id", "client-secret", "http://127.0.0.1:3001").unwrap();
    let mut flow = flow.add_scope("wallet:accounts:read").unwrap();
    let _ = flow.begin_authorization();
    let r = flow.handle_callback("GET /?state=only-state HTTP/1.1");
    assert!(matches!(r, Err(CbError::CallbackParse { .. })));
}

#[test]
fn test_callback_decodes_percent_encoding() {
    let flow = OAuthCbClient::new("id", "client-secret", "http://127.0.0.1:3001").unwrap();
    let mut flow = flow.add_scope("wallet:accounts:read").unwrap();
    let ctx = flow.begin_authorization();
    // Percent-encode the state; the callback parser must decode it back
    // to the exact token before comparing.
    let encoded: String = url::form_urlencoded::byte_serialize(ctx.state.as_bytes()).collect();
    let line = format!("GET /?code=c%20ode&state={} HTTP/1.1", encoded);
    flow.handle_callback(&line).unwrap();
    let exchange = flow.token_exchange_request();
    assert_eq!(exchange.code, "c ode");
}

#[test]
fn test_flow_configuration_errors() {
    assert!(matches!(
        OAuthCbClient::new("id", "client-secret", "not a url"),
        Err(CbError::Config { .. })
    ));
    assert!(matches!(
        OAuthCbClient::new("id", "client-secret", "http://localhost"),
        Err(CbError::Config { .. })
    ));
    let flow = OAuthCbClient::new("id", "client-secret", "http://localhost:3001").unwrap();
    match flow.add_scope("wallet:everything:forever") {
        Err(CbError::InvalidScope { scope }) => assert_eq!(scope, "wallet:everything:forever"),
        Err(other) => panic!("expected an invalid-scope error, got {:?}", other),
        Ok(_) => panic!("an unknown scope was accepted"),
    }
}

#[test]
fn test_scopes_collapse_duplicates() {
    let flow = OAuthCbClient::new("id", "client-secret", "http://localhost:3001").unwrap();
    let flow = flow.add_scope("wallet:accounts:read").unwrap();
    let flow = flow.add_scope("wallet:user:read").unwrap();
    let mut flow = flow.add_scope("wallet:accounts:read").unwrap();
    let ctx = flow.begin_authorization();
    assert_eq!(
        ctx.scopes,
        vec!["wallet:accounts:read".to_string(), "wallet:user:read".to_string()]
    );
}

//! The authenticated-request executor: request descriptions carrying a
//! bearer token, and the dual-shape response decoder.
//!
//! A response body is either a success payload or a service-error
//! envelope; the two are valid JSON of different schemas with no shared
//! discriminant.  [`unpack_response`] therefore checks the success
//! schema first and the error schema only after the success check has
//! failed — that order is part of the contract, since a permissive
//! success schema may also accept an error body.

use vstd::prelude::*;

use vstd::string::StringSliceAdditionalSpecFns;
use vstd::utf8::{encode_utf8, is_ascii_chars, is_ascii_chars_concat};

use crate::datetime::{rfc3339_utc_of, UtcTimestamp};
use crate::error::{service_error_of, CbError, CbErrorView, CbRequestError};
use crate::json::{json_of, parse_document, FromJson, JsonValue};
use crate::orders::{cancel_body_json, cancel_order_body, order_to_send_json, OrderPlacementSource,
    OrderToSend, OrderType, Status};
use crate::products::{ContractExpiryType, Granularity, ProductType, Side};
use crate::query::{expand_query_template, uri_query_expansion_of, QueryArgs};
use crate::strutil::{i64_to_dec, int_dec_digits, opt_view};
use crate::MAIN_URL;

verus! {

/// Whether `c` is an RFC3986 unreserved character, which URI-template
/// expansion passes through unchanged.
pub open spec fn uri_safe_char(c: char) -> bool {
    ('a' <= c <= 'z') || ('A' <= c <= 'Z') || ('0' <= c <= '9') || c == '-' || c == '.' || c
        == '_' || c == '~'
}

/// The upper-case hex character of a nibble, as percent-encoding writes
/// it.
pub open spec fn hex_upper(d: nat) -> char {
    if d == 0 {
        '0'
    } else if d == 1 {
        '1'
    } else if d == 2 {
        '2'
    } else if d == 3 {
        '3'
    } else if d == 4 {
        '4'
    } else if d == 5 {
        '5'
    } else if d == 6 {
        '6'
    } else if d == 7 {
        '7'
    } else if d == 8 {
        '8'
    } else if d == 9 {
        '9'
    } else if d == 10 {
        'A'
    } else if d == 11 {
        'B'
    } else if d == 12 {
        'C'
    } else if d == 13 {
        'D'
    } else if d == 14 {
        'E'
    } else {
        'F'
    }
}

/// Every byte of `bs` written as a `%XX` triplet.
pub open spec fn pct_bytes(bs: Seq<u8>) -> Seq<char>
    decreases bs.len(),
{
    if bs.len() == 0 {
        Seq::empty()
    } else {
        pct_bytes(bs.drop_last()) + seq![
            '%',
            hex_upper((bs.last() / 16) as nat),
            hex_upper((bs.last() % 16) as nat),
        ]
    }
}

/// One character under RFC6570 simple expansion: an unreserved
/// character stands as itself, any other character as the `%XX`
/// triplets of its UTF-8 bytes.  (The bytes of a character that is not
/// unreserved are never themselves unreserved, so escaping them all is
/// exactly what the template engine does.)
pub open spec fn pct_char(c: char) -> Seq<char> {
    if uri_safe_char(c) {
        seq![c]
    } else {
        pct_bytes(encode_utf8(seq![c]))
    }
}

/// The percent-encoding of a path segment, character by character.
pub open spec fn pct_encode(s: Seq<char>) -> Seq<char>
    decreases s.len(),
{
    if s.len() == 0 {
        Seq::empty()
    } else {
        pct_encode(s.drop_last()) + pct_char(s.last())
    }
}

fn hex_upper_str(d: u8) -> (r: &'static str)
    requires
        d < 16,
    ensures
        r@ =~= seq![hex_upper(d as nat)],
{
    proof {
        reveal_strlit("0");
        reveal_strlit("1");
        reveal_strlit("2");
        reveal_strlit("3");
        reveal_strlit("4");
        reveal_strlit("5");
        reveal_strlit("6");
        reveal_strlit("7");
        reveal_strlit("8");
        reveal_strlit("9");
        reveal_strlit("A");
        reveal_strlit("B");
        reveal_strlit("C");
        reveal_strlit("D");
        reveal_strlit("E");
        reveal_strlit("F");
    }
    match d {
        0 => "0",
        1 => "1",
        2 => "2",
        3 => "3",
        4 => "4",
        5 => "5",
        6 => "6",
        7 => "7",
        8 => "8",
        9 => "9",
        10 => "A",
        11 => "B",
        12 => "C",
        13 => "D",
        14 => "E",
        _ => "F",
    }
}

/// Percent-encodes a path segment exactly as the template engine's
/// simple expansion would: unreserved characters pass through, every
/// other character becomes the `%XX` triplets of its UTF-8 bytes.
pub fn pct_encode_path_segment(s: &str) -> (r: String)
    ensures
        r@ == pct_encode(s@),
{
    let mut out = String::new();
    let n = s.unicode_len();
    let mut i: usize = 0;
    proof {
        assert(s@.take(0) =~= Seq::<char>::empty());
        assert(out@ =~= pct_encode(s@.take(0)));
    }
    while i < n
        invariant
            i <= n,
            n == s@.len(),
            out@ == pct_encode(s@.take(i as int)),
        decreases n - i,
    {
        let c = s.get_char(i);
        proof {
            assert(s@.take(i + 1).drop_last() =~= s@.take(i as int));
            assert(s@.take(i + 1).last() == s@[i as int]);
        }
        let safe = ('a' <= c && c <= 'z') || ('A' <= c && c <= 'Z') || ('0' <= c && c <= '9')
            || c == '-' || c == '.' || c == '_' || c == '~';
        if safe {
            let one = s.substring_char(i, i + 1);
            out.append(one);
            proof {
                assert(one@ =~= pct_char(s@[i as int]));
            }
        } else {
            let one = s.substring_char(i, i + 1);
            let bytes = one.as_bytes_vec();
            proof {
                assert(one@ =~= seq![s@[i as int]]);
                assert(bytes@ == encode_utf8(seq![s@[i as int]]));
            }
            let ghost before = out@;
            let mut j: usize = 0;
            proof {
                assert(bytes@.take(0) =~= Seq::<u8>::empty());
                assert(out@ =~= before + pct_bytes(bytes@.take(0)));
            }
            while j < bytes.len()
                invariant
                    j <= bytes@.len(),
                    out@ == before + pct_bytes(bytes@.take(j as int)),
                decreases bytes@.len() - j,
            {
                let b = bytes[j];
                proof {
                    reveal_strlit("%");
                    assert(bytes@.take(j + 1).drop_last() =~= bytes@.take(j as int));
                    assert(bytes@.take(j + 1).last() == bytes@[j as int]);
                }
                out.append("%");
                out.append(hex_upper_str(b / 16));
                out.append(hex_upper_str(b % 16));
                j += 1;
                proof {
                    assert(out@ =~= before + pct_bytes(bytes@.take(j as int)));
                }
            }
            proof {
                assert(bytes@.take(bytes@.len() as int) =~= bytes@);
                assert(out@ =~= pct_encode(s@.take(i + 1)));
            }
        }
        i += 1;
    }
    proof {
        assert(s@.take(n as int) =~= s@);
    }
    out
}

/// Anything that can hand out a current access token.  The basic OAuth2
/// client of this crate implements it; a caller may substitute a fancier
/// provider.
pub trait AccessTokenProvider {
    /// The token the provider currently holds.
    spec fn spec_token(&self) -> Seq<char>;

    /// Whether a completed authorization has stored a token.  The token
    /// store is written once and read many times, and every read must
    /// come after that one write: reading earlier cannot verify.
    spec fn token_ready(&self) -> bool;

    /// Returns a bearer token for the API.  The token may have expired;
    /// its validity is the provider's business.
    fn access_token(&self) -> (r: String)
        requires
            self.token_ready(),
        ensures
            r@ == self.spec_token(),
    ;
}

/// The HTTP method of an [`ApiRequest`].
#[derive(Debug, PartialEq, Eq, Structural, Clone, Copy)]
pub enum HttpMethod {
    Get,
    Post,
}

/// A fully assembled request: everything the transport needs to perform
/// one authenticated HTTP exchange.
#[derive(Debug, PartialEq)]
pub struct ApiRequest {
    pub method: HttpMethod,
    pub url: String,
    /// The bearer token for the `Authorization` header.
    pub bearer: String,
    /// The JSON body of a POST, absent for a GET.
    pub body: Option<String>,
}

/// The request executor.  It borrows the token provider through the
/// read-only [`AccessTokenProvider`] capability and reads the current
/// token afresh for every request it assembles; it never writes the
/// store.  Reading requires a completed authorization, so a request can
/// only be assembled after the store's one write: the single writer
/// finishes before any reader starts, enforced by precondition rather
/// than by a lock.
pub struct CbClient<'a, P: AccessTokenProvider> {
    access_token_provider: &'a P,
}

impl<'a, P: AccessTokenProvider> CbClient<'a, P> {
    /// Wraps the provider.  Construction reads nothing; every assembled
    /// request reads the provider then and there.
    pub fn new(provider: &'a P) -> (c: CbClient<'a, P>)
        ensures
            c.token() == provider.spec_token(),
            c.ready() == provider.token_ready(),
    {
        CbClient { access_token_provider: provider }
    }

    /// The token the provider currently holds.
    pub closed spec fn token(&self) -> Seq<char> {
        self.access_token_provider.spec_token()
    }

    /// Whether the provider's authorization has completed.
    pub closed spec fn ready(&self) -> bool {
        self.access_token_provider.token_ready()
    }

    /// Assembles an authenticated GET of `url`, reading the bearer token
    /// from the provider.
    pub fn get_request(&self, url: String) -> (r: ApiRequest)
        requires
            self.ready(),
        ensures
            r.method == HttpMethod::Get,
            r.url@ == url@,
            r.bearer@ == self.token(),
            r.body is None,
    {
        ApiRequest {
            method: HttpMethod::Get,
            url,
            bearer: self.access_token_provider.access_token(),
            body: None,
        }
    }

    /// Assembles an authenticated POST of `body` to `url`, reading the
    /// bearer token from the provider.
    pub fn post_request(&self, url: String, body: String) -> (r: ApiRequest)
        requires
            self.ready(),
        ensures
            r.method == HttpMethod::Post,
            r.url@ == url@,
            r.bearer@ == self.token(),
            r.body matches Some(b) && b@ == body@,
    {
        ApiRequest {
            method: HttpMethod::Post,
            url,
            bearer: self.access_token_provider.access_token(),
            body: Some(body),
        }
    }
}

/// Decodes a response body of expected success type `T`.
///
/// The body is checked against the success schema first; only when
/// that check fails is the service-error schema tried, and only when
/// both fail does the call report a decoding failure, keeping the raw
/// body for diagnosis.
pub fn unpack_response<T: FromJson>(body: &str) -> (r: Result<T, CbError>)
        ensures
            match json_of(body@) {
                Some(j) => match T::from_json_spec(j) {
                    Some(v) => r matches Ok(t) && t@ == v,
                    None => match service_error_of(j) {
                        Some(se) => r matches Err(e) && e@ == CbErrorView::Coinbase(se),
                        None => r matches Err(e) && e@ matches CbErrorView::Serde {
                            detail: d,
                            body: b,
                        } && d == "the body matches neither the success schema nor the error schema"@
                            && b == body@,
                    },
                },
                None => r matches Err(e) && e@ matches CbErrorView::Serde { detail: d, body: b }
                    && d == "the body is not valid JSON"@ && b == body@,
            },
    {
        match parse_document(body) {
            Some(j) => match T::from_json(&j) {
                Some(v) => Ok(v),
                None => match CbRequestError::from_json(&j) {
                    Some(e) => Err(CbError::Coinbase(e)),
                    None => Err(
                        CbError::Serde {
                            detail: String::from_str(
                                "the body matches neither the success schema nor the error schema",
                            ),
                            body: String::from_str(body),
                        },
                    ),
                },
            },
            None => Err(
                CbError::Serde {
                    detail: String::from_str("the body is not valid JSON"),
                    body: String::from_str(body),
                },
            ),
        }
    }

// ---------------------------------------------------------------------
// Endpoint URLs.
// ---------------------------------------------------------------------

fn opt_i32_dec(o: &Option<i32>) -> (r: Option<String>)
    ensures
        match o {
            Some(v) => r matches Some(s) && s@ == int_dec_digits(*v as int),
            None => r is None,
        },
{
    match o {
        Some(v) => Some(i64_to_dec(*v as i64)),
        None => None,
    }
}

fn opt_i64_dec(o: &Option<i64>) -> (r: Option<String>)
    ensures
        match o {
            Some(v) => r matches Some(s) && s@ == int_dec_digits(*v as int),
            None => r is None,
        },
{
    match o {
        Some(v) => Some(i64_to_dec(*v)),
        None => None,
    }
}

/// Joins the base URL and an ASCII endpoint suffix.
fn api_path(suffix: &str) -> (r: String)
    requires
        is_ascii_chars(suffix@),
    ensures
        r@ == MAIN_URL@ + suffix@,
        is_ascii_chars(r@),
{
    proof {
        reveal_strlit("https://api.coinbase.com/api/v3");
        assert(is_ascii_chars(MAIN_URL@));
    }
    let mut t = String::from_str(MAIN_URL);
    t.append(suffix);
    proof {
        is_ascii_chars_concat(t@, MAIN_URL@, suffix@);
    }
    t
}

/// The query arguments of the account listing.
pub open spec fn list_accounts_args(limit: Option<i32>, cursor: Option<Seq<char>>) -> Seq<
    (Seq<char>, Seq<char>),
> {
    let q0 = Seq::<(Seq<char>, Seq<char>)>::empty();
    let q1 = if limit is Some {
        q0.push(("limit"@, int_dec_digits(limit->0 as int)))
    } else {
        q0
    };
    if cursor is Some {
        q1.push(("cursor"@, cursor->0))
    } else {
        q1
    }
}

/// The URL of the paginated account listing.
pub fn get_list_accounts_uri(limit: Option<i32>, cursor: Option<String>) -> (r: String)
    ensures
        r@ == uri_query_expansion_of(
            MAIN_URL@ + "/brokerage/accounts{?query*}"@,
            list_accounts_args(limit, opt_view(cursor)),
        ),
{
    let limit_s = opt_i32_dec(&limit);
    let args = QueryArgs::new().add_optional_scalar_arg("limit", &limit_s)
        .add_optional_scalar_arg("cursor", &cursor);
    proof {
        assert(args@ =~= list_accounts_args(limit, opt_view(cursor)));
    }
    proof {
        reveal_strlit("/brokerage/accounts{?query*}");
    }
    let template = api_path("/brokerage/accounts{?query*}");
    expand_query_template(template.as_str(), args)
}

/// The URL of a single account, its id percent-encoded into the path.
pub fn get_account_uri(account_uuid: &str) -> (r: String)
    ensures
        r@ == MAIN_URL@ + "/brokerage/accounts/"@ + pct_encode(account_uuid@),
{
    proof {
        reveal_strlit("/brokerage/accounts/");
    }
    let mut t = api_path("/brokerage/accounts/");
    let encoded = pct_encode_path_segment(account_uuid);
    t.append(encoded.as_str());
    t
}

/// The query arguments of the best-bid/ask listing.
pub open spec fn best_bid_ask_args(product_ids: Option<Seq<Seq<char>>>) -> Seq<
    (Seq<char>, Seq<char>),
> {
    let q0 = Seq::<(Seq<char>, Seq<char>)>::empty();
    match product_ids {
        Some(ids) => q0 + ids.map_values(|v: Seq<char>| ("product_ids"@, v)),
        None => q0,
    }
}

/// The URL of the best-bid/ask listing, optionally restricted to some
/// products.
pub fn get_best_bid_ask_uri(product_ids: &Option<Vec<String>>) -> (r: String)
    ensures
        r@ == uri_query_expansion_of(
            MAIN_URL@ + "/brokerage/best_bid_ask{?query*}"@,
            best_bid_ask_args(match product_ids {
                Some(v) => Some(v@.map_values(|s: String| s@)),
                None => None,
            }),
        ),
{
    let args = QueryArgs::new().add_optional_vec_args("product_ids", product_ids);
    proof {
        match product_ids {
            Some(v) => {
                assert(v@.map_values(|s: String| s@).map_values(
                    |x: Seq<char>| ("product_ids"@, x),
                ) =~= v@.map_values(|s: String| ("product_ids"@, s@)));
                assert(args@ =~= best_bid_ask_args(
                    Some(v@.map_values(|s: String| s@)),
                ));
            },
            None => {
                assert(args@ =~= best_bid_ask_args(None));
            },
        }
    }
    proof {
        reveal_strlit("/brokerage/best_bid_ask{?query*}");
    }
    let template = api_path("/brokerage/best_bid_ask{?query*}");
    expand_query_template(template.as_str(), args)
}

/// The query arguments of the product-book request.
pub open spec fn product_book_args(product_id: Seq<char>, limit: Option<i32>) -> Seq<
    (Seq<char>, Seq<char>),
> {
    let q0 = Seq::<(Seq<char>, Seq<char>)>::empty().push(("product_id"@, product_id));
    if limit is Some {
        q0.push(("limit"@, int_dec_digits(limit->0 as int)))
    } else {
        q0
    }
}

/// The URL of the product-book request.
pub fn get_product_book_uri(product_id: &str, limit: Option<i32>) -> (r: String)
    ensures
        r@ == uri_query_expansion_of(
            MAIN_URL@ + "/brokerage/product_book/{?query*}"@,
            product_book_args(product_id@, limit),
        ),
{
    let limit_s = opt_i32_dec(&limit);
    let args = QueryArgs::new().add_mandatory_arg("product_id", product_id)
        .add_optional_scalar_arg("limit", &limit_s);
    proof {
        assert(args@ =~= product_book_args(product_id@, limit));
    }
    proof {
        reveal_strlit("/brokerage/product_book/{?query*}");
    }
    let template = api_path("/brokerage/product_book/{?query*}");
    expand_query_template(template.as_str(), args)
}

/// The query arguments of the product listing.
pub open spec fn list_products_args(
    limit: Option<i32>,
    offset: Option<i32>,
    product_type: Option<ProductType>,
    product_ids: Option<Seq<Seq<char>>>,
    contract_expiry_type: Option<ContractExpiryType>,
) -> Seq<(Seq<char>, Seq<char>)> {
    let q0 = Seq::<(Seq<char>, Seq<char>)>::empty();
    let q1 = if limit is Some {
        q0.push(("limit"@, int_dec_digits(limit->0 as int)))
    } else {
        q0
    };
    let q2 = if offset is Some {
        q1.push(("offset"@, int_dec_digits(offset->0 as int)))
    } else {
        q1
    };
    let q3 = if product_type is Some {
        q2.push(("product_type"@, product_type->0.wire_spec()))
    } else {
        q2
    };
    let q4 = match product_ids {
        Some(ids) => q3 + ids.map_values(|v: Seq<char>| ("product_ids"@, v)),
        None => q3,
    };
    if contract_expiry_type is Some {
        q4.push(("contract_expiry_type"@, contract_expiry_type->0.wire_spec()))
    } else {
        q4
    }
}

/// The URL of the product listing.
pub fn get_list_products_uri(
    limit: Option<i32>,
    offset: Option<i32>,
    product_type: Option<ProductType>,
    product_ids: &Option<Vec<String>>,
    contract_expiry_type: Option<ContractExpiryType>,
) -> (r: String)
    ensures
        r@ == uri_query_expansion_of(
            MAIN_URL@ + "/brokerage/products{?query*}"@,
            list_products_args(
                limit,
                offset,
                product_type,
                match product_ids {
                    Some(v) => Some(v@.map_values(|s: String| s@)),
                    None => None,
                },
                contract_expiry_type,
            ),
        ),
{
    let limit_s = opt_i32_dec(&limit);
    let offset_s = opt_i32_dec(&offset);
    let pt_s: Option<String> = match product_type {
        Some(t) => Some(String::from_str(t.wire_name())),
        None => None,
    };
    let cet_s: Option<String> = match contract_expiry_type {
        Some(t) => Some(String::from_str(t.wire_name())),
        None => None,
    };
    let args = QueryArgs::new().add_optional_scalar_arg("limit", &limit_s)
        .add_optional_scalar_arg("offset", &offset_s).add_optional_scalar_arg(
        "product_type",
        &pt_s,
    ).add_optional_vec_args("product_ids", product_ids).add_optional_scalar_arg(
        "contract_expiry_type",
        &cet_s,
    );
    proof {
        let ghost ids = match product_ids {
            Some(v) => Some(v@.map_values(|s: String| s@)),
            None => None::<Seq<Seq<char>>>,
        };
        match product_ids {
            Some(v) => {
                assert(v@.map_values(|s: String| s@).map_values(
                    |x: Seq<char>| ("product_ids"@, x),
                ) =~= v@.map_values(|s: String| ("product_ids"@, s@)));
            },
            None => {},
        }
        assert(args@ =~= list_products_args(
            limit,
            offset,
            product_type,
            ids,
            contract_expiry_type,
        ));
    }
    proof {
        reveal_strlit("/brokerage/products{?query*}");
    }
    let template = api_path("/brokerage/products{?query*}");
    expand_query_template(template.as_str(), args)
}

/// The URL of a single product, its id percent-encoded into the path.
pub fn get_product_uri(product_id: &str) -> (r: String)
    ensures
        r@ == MAIN_URL@ + "/brokerage/products/"@ + pct_encode(product_id@),
{
    proof {
        reveal_strlit("/brokerage/products/");
    }
    let mut t = api_path("/brokerage/products/");
    let encoded = pct_encode_path_segment(product_id);
    t.append(encoded.as_str());
    t
}

/// The URL of the candle listing for one product and time range.
pub fn get_product_candles_uri(
    product_id: &str,
    start: UtcTimestamp,
    end: UtcTimestamp,
    granularity: Granularity,
) -> (r: String)
    ensures
        r@ == MAIN_URL@ + "/brokerage/products/"@ + pct_encode(product_id@) + "/candles?start="@
            + int_dec_digits(start.secs as int) + "&end="@ + int_dec_digits(end.secs as int)
            + "&granularity="@ + granularity.wire_spec(),
{
    proof {
        reveal_strlit("/brokerage/products/");
    }
    let mut t = api_path("/brokerage/products/");
    let encoded = pct_encode_path_segment(product_id);
    t.append(encoded.as_str());
    t.append("/candles?start=");
    let start_s = i64_to_dec(start.secs);
    t.append(start_s.as_str());
    t.append("&end=");
    let end_s = i64_to_dec(end.secs);
    t.append(end_s.as_str());
    t.append("&granularity=");
    t.append(granularity.wire_name());
    t
}

/// The URL of the recent-trades snapshot for one product.
pub fn get_market_trades_uri(product_id: &str, limit: i32) -> (r: String)
    ensures
        r@ == MAIN_URL@ + "/brokerage/products/"@ + pct_encode(product_id@) + "/ticker?limit="@
            + int_dec_digits(limit as int),
{
    proof {
        reveal_strlit("/brokerage/products/");
    }
    let mut t = api_path("/brokerage/products/");
    let encoded = pct_encode_path_segment(product_id);
    t.append(encoded.as_str());
    t.append("/ticker?limit=");
    let limit_s = i64_to_dec(limit as i64);
    t.append(limit_s.as_str());
    t
}

/// The query arguments of the historical-order listing.
pub open spec fn list_orders_args(
    product_id: Option<Seq<char>>,
    order_status: Option<Seq<Status>>,
    limit: Option<i32>,
    start_date: Option<int>,
    end_date: Option<int>,
    deprecated_user_native_currency: Option<Seq<char>>,
    order_type: Option<OrderType>,
    order_side: Option<Side>,
    cursor: Option<Seq<char>>,
    product_type: Option<ProductType>,
    order_placement_source: Option<OrderPlacementSource>,
    contract_expiry_type: Option<ContractExpiryType>,
) -> Seq<(Seq<char>, Seq<char>)> {
    let q0 = Seq::<(Seq<char>, Seq<char>)>::empty();
    let q1 = if product_id is Some {
        q0.push(("product_id"@, product_id->0))
    } else {
        q0
    };
    let q2 = match order_status {
        Some(ss) => q1 + ss.map_values(|s: Status| ("order_status"@, s.wire_spec())),
        None => q1,
    };
    let q3 = if limit is Some {
        q2.push(("limit"@, int_dec_digits(limit->0 as int)))
    } else {
        q2
    };
    let q4 = if start_date is Some {
        q3.push(("start_date"@, rfc3339_utc_of(start_date->0)))
    } else {
        q3
    };
    let q5 = if end_date is Some {
        q4.push(("end_date"@, rfc3339_utc_of(end_date->0)))
    } else {
        q4
    };
    let q6 = if deprecated_user_native_currency is Some {
        q5.push(("deprecated_user_native_currency"@, deprecated_user_native_currency->0))
    } else {
        q5
    };
    let q7 = if order_type is Some {
        q6.push(("order_type"@, order_type->0.wire_spec()))
    } else {
        q6
    };
    let q8 = if order_side is Some {
        q7.push(("order_side"@, order_side->0.wire_spec()))
    } else {
        q7
    };
    let q9 = if cursor is Some {
        q8.push(("cursor"@, cursor->0))
    } else {
        q8
    };
    let q10 = if product_type is Some {
        q9.push(("product_type"@, product_type->0.wire_spec()))
    } else {
        q9
    };
    let q11 = if order_placement_source is Some {
        q10.push(("order_placement_source"@, order_placement_source->0.wire_spec()))
    } else {
        q10
    };
    // the upstream API family spells this key with the transposed "irty".
    if contract_expiry_type is Some {
        q11.push(("contract_expirty_type"@, contract_expiry_type->0.wire_spec()))
    } else {
        q11
    }
}

/// The URL of the historical-order listing.
#[verifier::rlimit(60)]
pub fn get_list_orders_uri(
    product_id: &Option<String>,
    order_status: &Option<Vec<Status>>,
    limit: &Option<i32>,
    start_date: &Option<UtcTimestamp>,
    end_date: &Option<UtcTimestamp>,
    deprecated_user_native_currency: &Option<String>,
    order_type: &Option<OrderType>,
    order_side: &Option<Side>,
    cursor: &Option<String>,
    product_type: &Option<ProductType>,
    order_placement_source: &Option<OrderPlacementSource>,
    contract_expiry_type: &Option<ContractExpiryType>,
) -> (r: String)
    ensures
        r@ == uri_query_expansion_of(
            MAIN_URL@ + "/brokerage/orders/historical/batch{?query*}"@,
            list_orders_args(
                opt_view(*product_id),
                match order_status {
                    Some(v) => Some(v@),
                    None => None,
                },
                *limit,
                match start_date {
                    Some(t) => Some(t.secs as int),
                    None => None,
                },
                match end_date {
                    Some(t) => Some(t.secs as int),
                    None => None,
                },
                opt_view(*deprecated_user_native_currency),
                *order_type,
                *order_side,
                opt_view(*cursor),
                *product_type,
                *order_placement_source,
                *contract_expiry_type,
            ),
        ),
{
    let statuses: Option<Vec<String>> = match order_status {
        Some(ss) => {
            let mut out: Vec<String> = Vec::new();
            let mut i: usize = 0;
            proof {
                assert(out@.map_values(|s: String| s@) =~= ss@.map_values(
                    |s: Status| s.wire_spec(),
                ).take(0));
            }
            while i < ss.len()
                invariant
                    i <= ss@.len(),
                    out@.map_values(|s: String| s@) == ss@.map_values(
                        |s: Status| s.wire_spec(),
                    ).take(i as int),
                decreases ss@.len() - i,
            {
                let ghost prev = out@.map_values(|s: String| s@);
                out.push(String::from_str(ss[i].wire_name()));
                i += 1;
                proof {
                    assert(out@.map_values(|s: String| s@) =~= prev.push(
                        ss@[i - 1].wire_spec(),
                    ));
                    assert(ss@.map_values(|s: Status| s.wire_spec()).take(i as int) =~= prev.push(
                        ss@[i - 1].wire_spec(),
                    ));
                }
            }
            proof {
                assert(ss@.map_values(|s: Status| s.wire_spec()).take(ss@.len() as int)
                    =~= ss@.map_values(|s: Status| s.wire_spec()));
            }
            Some(out)
        },
        None => None,
    };
    let limit_s = opt_i32_dec(limit);
    let start_s: Option<UtcTimestamp> = match start_date {
        Some(t) => Some(*t),
        None => None,
    };
    let end_s: Option<UtcTimestamp> = match end_date {
        Some(t) => Some(*t),
        None => None,
    };
    let ot_s: Option<String> = match order_type {
        Some(t) => Some(String::from_str(t.wire_name())),
        None => None,
    };
    let os_s: Option<String> = match order_side {
        Some(t) => Some(String::from_str(t.wire_name())),
        None => None,
    };
    let pt_s: Option<String> = match product_type {
        Some(t) => Some(String::from_str(t.wire_name())),
        None => None,
    };
    let ops_s: Option<String> = match order_placement_source {
        Some(t) => Some(String::from_str(t.wire_name())),
        None => None,
    };
    let cet_s: Option<String> = match contract_expiry_type {
        Some(t) => Some(String::from_str(t.wire_name())),
        None => None,
    };
    let args = QueryArgs::new().add_optional_scalar_arg("product_id", product_id)
        .add_optional_vec_args("order_status", &statuses).add_optional_scalar_arg(
        "limit",
        &limit_s,
    ).add_optional_datetime_arg("start_date", &start_s).add_optional_datetime_arg(
        "end_date",
        &end_s,
    ).add_optional_scalar_arg("deprecated_user_native_currency", deprecated_user_native_currency)
        .add_optional_scalar_arg("order_type", &ot_s).add_optional_scalar_arg(
        "order_side",
        &os_s,
    ).add_optional_scalar_arg("cursor", cursor).add_optional_scalar_arg("product_type", &pt_s)
        .add_optional_scalar_arg("order_placement_source", &ops_s).add_optional_scalar_arg(
        "contract_expirty_type",
        &cet_s,
    );
    proof {
        match (order_status, &statuses) {
            (Some(ss), Some(w)) => {
                assert(w@.map_values(|s: String| s@) == ss@.map_values(
                    |s: Status| s.wire_spec(),
                ));
                assert forall|i: int| 0 <= i < w@.len() implies (#[trigger] w@[i])@
                    == ss@[i].wire_spec() by {
                    assert(w@.map_values(|s: String| s@)[i] == w@[i]@);
                    assert(ss@.map_values(|s: Status| s.wire_spec())[i] == ss@[i].wire_spec());
                }
                assert(w@.map_values(|v: String| ("order_status"@, v@)) =~= ss@.map_values(
                    |s: Status| ("order_status"@, s.wire_spec()),
                ));
            },
            _ => {},
        }
        assert(args@ =~= list_orders_args(
            opt_view(*product_id),
            match order_status {
                Some(v) => Some(v@),
                None => None,
            },
            *limit,
            match start_date {
                Some(t) => Some(t.secs as int),
                None => None,
            },
            match end_date {
                Some(t) => Some(t.secs as int),
                None => None,
            },
            opt_view(*deprecated_user_native_currency),
            *order_type,
            *order_side,
            opt_view(*cursor),
            *product_type,
            *order_placement_source,
            *contract_expiry_type,
        ));
    }
    proof {
        reveal_strlit("/brokerage/orders/historical/batch{?query*}");
    }
    let template = api_path("/brokerage/orders/historical/batch{?query*}");
    expand_query_template(template.as_str(), args)
}

/// The query arguments of the fill listing.
pub open spec fn list_fills_args(
    order_id: Option<Seq<char>>,
    product_id: Option<Seq<char>>,
    start_sequence_timestamp: Option<int>,
    end_sequence_timestamp: Option<int>,
    limit: Option<i64>,
    cursor: Option<Seq<char>>,
) -> Seq<(Seq<char>, Seq<char>)> {
    let q0 = Seq::<(Seq<char>, Seq<char>)>::empty();
    let q1 = if order_id is Some {
        q0.push(("order_id"@, order_id->0))
    } else {
        q0
    };
    let q2 = if product_id is Some {
        q1.push(("product_id"@, product_id->0))
    } else {
        q1
    };
    let q3 = if start_sequence_timestamp is Some {
        q2.push(("start_sequence_timestamp"@, rfc3339_utc_of(start_sequence_timestamp->0)))
    } else {
        q2
    };
    let q4 = if end_sequence_timestamp is Some {
        q3.push(("end_sequence_timestamp"@, rfc3339_utc_of(end_sequence_timestamp->0)))
    } else {
        q3
    };
    let q5 = if limit is Some {
        q4.push(("limit"@, int_dec_digits(limit->0 as int)))
    } else {
        q4
    };
    if cursor is Some {
        q5.push(("cursor"@, cursor->0))
    } else {
        q5
    }
}

/// The URL of the fill listing.
pub fn get_list_fills_uri(
    order_id: &Option<String>,
    product_id: &Option<String>,
    start_sequence_timestamp: &Option<UtcTimestamp>,
    end_sequence_timestamp: &Option<UtcTimestamp>,
    limit: &Option<i64>,
    cursor: &Option<String>,
) -> (r: String)
    ensures
        r@ == uri_query_expansion_of(
            MAIN_URL@ + "/brokerage/orders/historical/fills{?query*}"@,
            list_fills_args(
                opt_view(*order_id),
                opt_view(*product_id),
                match start_sequence_timestamp {
                    Some(t) => Some(t.secs as int),
                    None => None,
                },
                match end_sequence_timestamp {
                    Some(t) => Some(t.secs as int),
                    None => None,
                },
                *limit,
                opt_view(*cursor),
            ),
        ),
{
    let start_s: Option<UtcTimestamp> = match start_sequence_timestamp {
        Some(t) => Some(*t),
        None => None,
    };
    let end_s: Option<UtcTimestamp> = match end_sequence_timestamp {
        Some(t) => Some(*t),
        None => None,
    };
    let limit_s = opt_i64_dec(limit);
    let args = QueryArgs::new().add_optional_scalar_arg("order_id", order_id)
        .add_optional_scalar_arg("product_id", product_id).add_optional_datetime_arg(
        "start_sequence_timestamp",
        &start_s,
    ).add_optional_datetime_arg("end_sequence_timestamp", &end_s).add_optional_scalar_arg(
        "limit",
        &limit_s,
    ).add_optional_scalar_arg("cursor", cursor);
    proof {
        assert(args@ =~= list_fills_args(
            opt_view(*order_id),
            opt_view(*product_id),
            match start_sequence_timestamp {
                Some(t) => Some(t.secs as int),
                None => None,
            },
            match end_sequence_timestamp {
                Some(t) => Some(t.secs as int),
                None => None,
            },
            *limit,
            opt_view(*cursor),
        ));
    }
    proof {
        reveal_strlit("/brokerage/orders/historical/fills{?query*}");
    }
    let template = api_path("/brokerage/orders/historical/fills{?query*}");
    expand_query_template(template.as_str(), args)
}

/// The URL of a single historical order, its id percent-encoded into
/// the path.
pub fn get_order_uri(order_id: &str) -> (r: String)
    ensures
        r@ == MAIN_URL@ + "/brokerage/orders/historical/"@ + pct_encode(order_id@),
{
    proof {
        reveal_strlit("/brokerage/orders/historical/");
    }
    let mut t = api_path("/brokerage/orders/historical/");
    let encoded = pct_encode_path_segment(order_id);
    t.append(encoded.as_str());
    t
}

/// The query arguments of the transactions summary.
pub open spec fn transactions_summary_args(
    start_date: Option<int>,
    end_date: Option<int>,
    user_native_currency: Option<Seq<char>>,
    product_type: Option<ProductType>,
    contract_expiry_type: Option<ContractExpiryType>,
) -> Seq<(Seq<char>, Seq<char>)> {
    let q0 = Seq::<(Seq<char>, Seq<char>)>::empty();
    let q1 = if start_date is Some {
        q0.push(("start_date"@, rfc3339_utc_of(start_date->0)))
    } else {
        q0
    };
    let q2 = if end_date is Some {
        q1.push(("end_date"@, rfc3339_utc_of(end_date->0)))
    } else {
        q1
    };
    let q3 = if user_native_currency is Some {
        q2.push(("user_native_currency"@, user_native_currency->0))
    } else {
        q2
    };
    let q4 = if product_type is Some {
        q3.push(("product_type"@, product_type->0.wire_spec()))
    } else {
        q3
    };
    if contract_expiry_type is Some {
        q4.push(("contract_expiry_type"@, contract_expiry_type->0.wire_spec()))
    } else {
        q4
    }
}

/// The URL of the transactions summary.
pub fn get_transactions_summary_uri(
    start_date: Option<UtcTimestamp>,
    end_date: Option<UtcTimestamp>,
    user_native_currency: &Option<String>,
    product_type: Option<ProductType>,
    contract_expiry_type: Option<ContractExpiryType>,
) -> (r: String)
    ensures
        r@ == uri_query_expansion_of(
            MAIN_URL@ + "/brokerage/transaction_summary{?query*}"@,
            transactions_summary_args(
                match start_date {
                    Some(t) => Some(t.secs as int),
                    None => None,
                },
                match end_date {
                    Some(t) => Some(t.secs as int),
                    None => None,
                },
                opt_view(*user_native_currency),
                product_type,
                contract_expiry_type,
            ),
        ),
{
    let pt_s: Option<String> = match product_type {
        Some(t) => Some(String::from_str(t.wire_name())),
        None => None,
    };
    let cet_s: Option<String> = match contract_expiry_type {
        Some(t) => Some(String::from_str(t.wire_name())),
        None => None,
    };
    let args = QueryArgs::new().add_optional_datetime_arg("start_date", &start_date)
        .add_optional_datetime_arg("end_date", &end_date).add_optional_scalar_arg(
        "user_native_currency",
        user_native_currency,
    ).add_optional_scalar_arg("product_type", &pt_s).add_optional_scalar_arg(
        "contract_expiry_type",
        &cet_s,
    );
    proof {
        assert(args@ =~= transactions_summary_args(
            match start_date {
                Some(t) => Some(t.secs as int),
                None => None,
            },
            match end_date {
                Some(t) => Some(t.secs as int),
                None => None,
            },
            opt_view(*user_native_currency),
            product_type,
            contract_expiry_type,
        ));
    }
    proof {
        reveal_strlit("/brokerage/transaction_summary{?query*}");
    }
    let template = api_path("/brokerage/transaction_summary{?query*}");
    expand_query_template(template.as_str(), args)
}

impl<'a, P: AccessTokenProvider> CbClient<'a, P> {
    /// Assembles the authenticated request of one account-listing page.
    pub fn list_accounts_request(&self, limit: Option<i32>, cursor: Option<String>) -> (r:
        ApiRequest)
        requires
            self.ready(),
        ensures
            r.method == HttpMethod::Get,
            r.bearer@ == self.token(),
            r.body is None,
            r.url@ == uri_query_expansion_of(
                MAIN_URL@ + "/brokerage/accounts{?query*}"@,
                list_accounts_args(limit, opt_view(cursor)),
            ),
    {
        self.get_request(get_list_accounts_uri(limit, cursor))
    }

    /// Assembles the authenticated request of one account.
    pub fn get_account_request(&self, account_uuid: &str) -> (r: ApiRequest)
        requires
            self.ready(),
        ensures
            r.method == HttpMethod::Get,
            r.bearer@ == self.token(),
            r.body is None,
            r.url@ == MAIN_URL@ + "/brokerage/accounts/"@ + pct_encode(account_uuid@),
    {
        self.get_request(get_account_uri(account_uuid))
    }

    /// Assembles the authenticated request that creates `order`, with
    /// the order framed as the JSON body.
    pub fn create_order_request(&self, order: &OrderToSend) -> (r: ApiRequest)
        requires
            self.ready(),
        ensures
            r.method == HttpMethod::Post,
            r.bearer@ == self.token(),
            r.url@ == MAIN_URL@ + "/brokerage/orders"@,
            r.body matches Some(b) && b@ == order_to_send_json(order@),
    {
        proof {
            reveal_strlit("/brokerage/orders");
        }
        self.post_request(api_path("/brokerage/orders"), order.to_json_text())
    }

    /// Assembles the authenticated request that cancels the given
    /// orders.
    pub fn cancel_order_request(&self, order_ids: &Vec<String>) -> (r: ApiRequest)
        requires
            self.ready(),
        ensures
            r.method == HttpMethod::Post,
            r.bearer@ == self.token(),
            r.url@ == MAIN_URL@ + "/brokerage/orders/batch_cancel"@,
            r.body matches Some(b) && b@ == cancel_body_json(
                order_ids@.map_values(|s: String| s@),
            ),
    {
        proof {
            reveal_strlit("/brokerage/orders/batch_cancel");
        }
        self.post_request(api_path("/brokerage/orders/batch_cancel"), cancel_order_body(order_ids))
    }
}

} // verus!

//! Products: the data model and the decoders for the product, pricebook,
//! candle and market-trade endpoints.

use vstd::prelude::*;

use crate::json::{arr_field, bool_field, datetime_field, decimal_field, get_arr, get_bool,
    get_datetime, get_decimal, get_num, get_obj, get_opt_datetime, get_opt_lenient_decimal,
    get_opt_obj, get_opt_str, get_str, num_field, obj_field, opt_datetime_field,
    opt_lenient_decimal_field, opt_obj_field, opt_str_field, seq_of, str_field, strings_of,
    vec_from_json, vec_strings_from_json, FromJson, JsonValue};
use crate::strutil::{clone_opt, int_token_value, opt_view, parse_int_in, str_eq};

verus! {

/// The service's product families.
#[derive(Debug, PartialEq, Eq, Structural, Clone, Copy)]
pub enum ProductType {
    Spot,
    Future,
}

impl ProductType {
    /// The wire name of this value.
    pub open spec fn wire_spec(self) -> Seq<char> {
        match self {
            ProductType::Spot => "SPOT"@,
            ProductType::Future => "FUTURE"@,
        }
    }

    /// Renders this value as its wire name.
    pub fn wire_name(&self) -> (r: &'static str)
        ensures
            r@ == self.wire_spec(),
    {
        match self {
            ProductType::Spot => "SPOT",
            ProductType::Future => "FUTURE",
        }
    }

    /// The value a wire name stands for; `None` for an unknown name.
    pub open spec fn from_wire_spec(s: Seq<char>) -> Option<ProductType> {
        if s == "SPOT"@ {
            Some(ProductType::Spot)
        } else if s == "FUTURE"@ {
            Some(ProductType::Future)
        } else {
            None
        }
    }

    /// Reads a wire name.
    pub fn from_wire(s: &str) -> (r: Option<ProductType>)
        ensures
            r == Self::from_wire_spec(s@),
    {
        if str_eq(s, "SPOT") {
            Some(ProductType::Spot)
        } else if str_eq(s, "FUTURE") {
            Some(ProductType::Future)
        } else {
            None
        }
    }
}

/// The service's contract-expiry classes.
#[derive(Debug, PartialEq, Eq, Structural, Clone, Copy)]
pub enum ContractExpiryType {
    UnknownRiskManagementType,
    Expiring,
}

impl ContractExpiryType {
    /// The wire name of this value.
    pub open spec fn wire_spec(self) -> Seq<char> {
        match self {
            ContractExpiryType::UnknownRiskManagementType => "UNKNOWN_RISK_MANAGEMENT_TYPE"@,
            ContractExpiryType::Expiring => "EXPIRING"@,
        }
    }

    /// Renders this value as its wire name.
    pub fn wire_name(&self) -> (r: &'static str)
        ensures
            r@ == self.wire_spec(),
    {
        match self {
            ContractExpiryType::UnknownRiskManagementType => "UNKNOWN_RISK_MANAGEMENT_TYPE",
            ContractExpiryType::Expiring => "EXPIRING",
        }
    }

    /// The value a wire name stands for; `None` for an unknown name.
    pub open spec fn from_wire_spec(s: Seq<char>) -> Option<ContractExpiryType> {
        if s == "UNKNOWN_RISK_MANAGEMENT_TYPE"@ {
            Some(ContractExpiryType::UnknownRiskManagementType)
        } else if s == "EXPIRING"@ {
            Some(ContractExpiryType::Expiring)
        } else {
            None
        }
    }

    /// Reads a wire name.
    pub fn from_wire(s: &str) -> (r: Option<ContractExpiryType>)
        ensures
            r == Self::from_wire_spec(s@),
    {
        if str_eq(s, "UNKNOWN_RISK_MANAGEMENT_TYPE") {
            Some(ContractExpiryType::UnknownRiskManagementType)
        } else if str_eq(s, "EXPIRING") {
            Some(ContractExpiryType::Expiring)
        } else {
            None
        }
    }
}

/// The candle bucket widths the service offers.
#[derive(Debug, PartialEq, Eq, Structural, Clone, Copy)]
pub enum Granularity {
    UnknownGranularity,
    OneMinute,
    FiveMinute,
    FifteenMinute,
    ThirtyMinute,
    OneHour,
    TwoHour,
    SixHour,
    OneDay,
}

impl Granularity {
    /// The wire name of this value.
    pub open spec fn wire_spec(self) -> Seq<char> {
        match self {
            Granularity::UnknownGranularity => "UNKNOWN_GRANULARITY"@,
            Granularity::OneMinute => "ONE_MINUTE"@,
            Granularity::FiveMinute => "FIVE_MINUTE"@,
            Granularity::FifteenMinute => "FIFTEEN_MINUTE"@,
            Granularity::ThirtyMinute => "THIRTY_MINUTE"@,
            Granularity::OneHour => "ONE_HOUR"@,
            Granularity::TwoHour => "TWO_HOUR"@,
            Granularity::SixHour => "SIX_HOUR"@,
            Granularity::OneDay => "ONE_DAY"@,
        }
    }

    /// Renders this value as its wire name.
    pub fn wire_name(&self) -> (r: &'static str)
        ensures
            r@ == self.wire_spec(),
    {
        match self {
            Granularity::UnknownGranularity => "UNKNOWN_GRANULARITY",
            Granularity::OneMinute => "ONE_MINUTE",
            Granularity::FiveMinute => "FIVE_MINUTE",
            Granularity::FifteenMinute => "FIFTEEN_MINUTE",
            Granularity::ThirtyMinute => "THIRTY_MINUTE",
            Granularity::OneHour => "ONE_HOUR",
            Granularity::TwoHour => "TWO_HOUR",
            Granularity::SixHour => "SIX_HOUR",
            Granularity::OneDay => "ONE_DAY",
        }
    }

    /// The value a wire name stands for; `None` for an unknown name.
    pub open spec fn from_wire_spec(s: Seq<char>) -> Option<Granularity> {
        if s == "UNKNOWN_GRANULARITY"@ {
            Some(Granularity::UnknownGranularity)
        } else if s == "ONE_MINUTE"@ {
            Some(Granularity::OneMinute)
        } else if s == "FIVE_MINUTE"@ {
            Some(Granularity::FiveMinute)
        } else if s == "FIFTEEN_MINUTE"@ {
            Some(Granularity::FifteenMinute)
        } else if s == "THIRTY_MINUTE"@ {
            Some(Granularity::ThirtyMinute)
        } else if s == "ONE_HOUR"@ {
            Some(Granularity::OneHour)
        } else if s == "TWO_HOUR"@ {
            Some(Granularity::TwoHour)
        } else if s == "SIX_HOUR"@ {
            Some(Granularity::SixHour)
        } else if s == "ONE_DAY"@ {
            Some(Granularity::OneDay)
        } else {
            None
        }
    }

    /// Reads a wire name.
    pub fn from_wire(s: &str) -> (r: Option<Granularity>)
        ensures
            r == Self::from_wire_spec(s@),
    {
        if str_eq(s, "UNKNOWN_GRANULARITY") {
            Some(Granularity::UnknownGranularity)
        } else if str_eq(s, "ONE_MINUTE") {
            Some(Granularity::OneMinute)
        } else if str_eq(s, "FIVE_MINUTE") {
            Some(Granularity::FiveMinute)
        } else if str_eq(s, "FIFTEEN_MINUTE") {
            Some(Granularity::FifteenMinute)
        } else if str_eq(s, "THIRTY_MINUTE") {
            Some(Granularity::ThirtyMinute)
        } else if str_eq(s, "ONE_HOUR") {
            Some(Granularity::OneHour)
        } else if str_eq(s, "TWO_HOUR") {
            Some(Granularity::TwoHour)
        } else if str_eq(s, "SIX_HOUR") {
            Some(Granularity::SixHour)
        } else if str_eq(s, "ONE_DAY") {
            Some(Granularity::OneDay)
        } else {
            None
        }
    }
}

/// The side of a trade or order.
#[derive(Debug, PartialEq, Eq, Structural, Clone, Copy)]
pub enum Side {
    UnknownOrderSide,
    Buy,
    Sell,
}

impl Side {
    /// The wire name of this value.
    pub open spec fn wire_spec(self) -> Seq<char> {
        match self {
            Side::UnknownOrderSide => "UNKNOWN_ORDER_SIDE"@,
            Side::Buy => "BUY"@,
            Side::Sell => "SELL"@,
        }
    }

    /// Renders this value as its wire name.
    pub fn wire_name(&self) -> (r: &'static str)
        ensures
            r@ == self.wire_spec(),
    {
        match self {
            Side::UnknownOrderSide => "UNKNOWN_ORDER_SIDE",
            Side::Buy => "BUY",
            Side::Sell => "SELL",
        }
    }

    /// The value a wire name stands for; `None` for an unknown name.
    pub open spec fn from_wire_spec(s: Seq<char>) -> Option<Side> {
        if s == "UNKNOWN_ORDER_SIDE"@ {
            Some(Side::UnknownOrderSide)
        } else if s == "BUY"@ {
            Some(Side::Buy)
        } else if s == "SELL"@ {
            Some(Side::Sell)
        } else {
            None
        }
    }

    /// Reads a wire name.
    pub fn from_wire(s: &str) -> (r: Option<Side>)
        ensures
            r == Self::from_wire_spec(s@),
    {
        if str_eq(s, "UNKNOWN_ORDER_SIDE") {
            Some(Side::UnknownOrderSide)
        } else if str_eq(s, "BUY") {
            Some(Side::Buy)
        } else if str_eq(s, "SELL") {
            Some(Side::Sell)
        } else {
            None
        }
    }
}

/// The kinds of fills the service reports.
#[derive(Debug, PartialEq, Eq, Structural, Clone, Copy)]
pub enum TradeType {
    Fill,
    Reversal,
    Correction,
    Synthetic,
}

impl TradeType {
    /// The wire name of this value.
    pub open spec fn wire_spec(self) -> Seq<char> {
        match self {
            TradeType::Fill => "FILL"@,
            TradeType::Reversal => "REVERSAL"@,
            TradeType::Correction => "CORRECTION"@,
            TradeType::Synthetic => "SYNTHETIC"@,
        }
    }

    /// Renders this value as its wire name.
    pub fn wire_name(&self) -> (r: &'static str)
        ensures
            r@ == self.wire_spec(),
    {
        match self {
            TradeType::Fill => "FILL",
            TradeType::Reversal => "REVERSAL",
            TradeType::Correction => "CORRECTION",
            TradeType::Synthetic => "SYNTHETIC",
        }
    }

    /// The value a wire name stands for; `None` for an unknown name.
    pub open spec fn from_wire_spec(s: Seq<char>) -> Option<TradeType> {
        if s == "FILL"@ {
            Some(TradeType::Fill)
        } else if s == "REVERSAL"@ {
            Some(TradeType::Reversal)
        } else if s == "CORRECTION"@ {
            Some(TradeType::Correction)
        } else if s == "SYNTHETIC"@ {
            Some(TradeType::Synthetic)
        } else {
            None
        }
    }

    /// Reads a wire name.
    pub fn from_wire(s: &str) -> (r: Option<TradeType>)
        ensures
            r == Self::from_wire_spec(s@),
    {
        if str_eq(s, "FILL") {
            Some(TradeType::Fill)
        } else if str_eq(s, "REVERSAL") {
            Some(TradeType::Reversal)
        } else if str_eq(s, "CORRECTION") {
            Some(TradeType::Correction)
        } else if str_eq(s, "SYNTHETIC") {
            Some(TradeType::Synthetic)
        } else {
            None
        }
    }
}

/// One bid of a pricebook.
#[derive(Debug, PartialEq)]
pub struct Bid {
    pub price: String,
    pub size: String,
}

/// The mathematical content of a [`Bid`].
pub struct BidView {
    pub price: Seq<char>,
    pub size: Seq<char>,
}

impl View for Bid {
    type V = BidView;

    open spec fn view(&self) -> BidView {
        BidView { price: self.price@, size: self.size@ }
    }
}

impl FromJson for Bid {
    open spec fn from_json_spec(j: JsonValue) -> Option<BidView> {
        match j {
            JsonValue::Object(fs) => match (decimal_field(fs@, "price"@), decimal_field(
                fs@,
                "size"@,
            )) {
                (Some(price), Some(size)) => Some(BidView { price, size }),
                _ => None,
            },
            _ => None,
        }
    }

    fn from_json(j: &JsonValue) -> (r: Option<Bid>) {
        let fs = match j {
            JsonValue::Object(fs) => fs,
            _ => { return None },
        };
        let price = match get_decimal(fs, "price") {
            Some(v) => v,
            None => { return None },
        };
        let size = match get_decimal(fs, "size") {
            Some(v) => v,
            None => { return None },
        };
        Some(Bid { price: price.clone(), size: size.clone() })
    }
}

/// One ask of a pricebook.
#[derive(Debug, PartialEq)]
pub struct Ask {
    pub price: String,
    pub size: String,
}

/// The mathematical content of an [`Ask`].
pub struct AskView {
    pub price: Seq<char>,
    pub size: Seq<char>,
}

impl View for Ask {
    type V = AskView;

    open spec fn view(&self) -> AskView {
        AskView { price: self.price@, size: self.size@ }
    }
}

impl FromJson for Ask {
    open spec fn from_json_spec(j: JsonValue) -> Option<AskView> {
        match j {
            JsonValue::Object(fs) => match (decimal_field(fs@, "price"@), decimal_field(
                fs@,
                "size"@,
            )) {
                (Some(price), Some(size)) => Some(AskView { price, size }),
                _ => None,
            },
            _ => None,
        }
    }

    fn from_json(j: &JsonValue) -> (r: Option<Ask>) {
        let fs = match j {
            JsonValue::Object(fs) => fs,
            _ => { return None },
        };
        let price = match get_decimal(fs, "price") {
            Some(v) => v,
            None => { return None },
        };
        let size = match get_decimal(fs, "size") {
            Some(v) => v,
            None => { return None },
        };
        Some(Ask { price: price.clone(), size: size.clone() })
    }
}

/// A pricebook: the bids and asks of one product at one instant.
#[derive(Debug, PartialEq)]
pub struct Pricebook {
    pub product_id: String,
    pub bids: Vec<Bid>,
    pub asks: Vec<Ask>,
    pub time: String,
}

/// The mathematical content of a [`Pricebook`].
pub struct PricebookView {
    pub product_id: Seq<char>,
    pub bids: Seq<BidView>,
    pub asks: Seq<AskView>,
    pub time: Seq<char>,
}

impl View for Pricebook {
    type V = PricebookView;

    open spec fn view(&self) -> PricebookView {
        PricebookView {
            product_id: self.product_id@,
            bids: self.bids@.map_values(|b: Bid| b@),
            asks: self.asks@.map_values(|a: Ask| a@),
            time: self.time@,
        }
    }
}

/// The pricebook carried by an object's members.
pub open spec fn pricebook_of_fields(fs: Seq<(String, JsonValue)>) -> Option<PricebookView> {
    let product_id = str_field(fs, "product_id"@);
    let bids = arr_field(fs, "bids"@);
    let asks = arr_field(fs, "asks"@);
    let time = datetime_field(fs, "time"@);
    if product_id is None || bids is None || seq_of::<Bid>(bids->0) is None || asks is None
        || seq_of::<Ask>(asks->0) is None || time is None {
        None
    } else {
        Some(
            PricebookView {
                product_id: product_id->0,
                bids: seq_of::<Bid>(bids->0)->0,
                asks: seq_of::<Ask>(asks->0)->0,
                time: time->0,
            },
        )
    }
}

impl FromJson for Pricebook {
    open spec fn from_json_spec(j: JsonValue) -> Option<PricebookView> {
        match j {
            JsonValue::Object(fs) => pricebook_of_fields(fs@),
            _ => None,
        }
    }

    fn from_json(j: &JsonValue) -> (r: Option<Pricebook>) {
        let fs = match j {
            JsonValue::Object(fs) => fs,
            _ => { return None },
        };
        Pricebook::from_json_fields(fs)
    }
}

impl Pricebook {
    /// Decodes a pricebook from an object's members.
    pub fn from_json_fields(fs: &Vec<(String, JsonValue)>) -> (r: Option<Pricebook>)
        ensures
            match r {
                Some(p) => pricebook_of_fields(fs@) == Some(p@),
                None => pricebook_of_fields(fs@) is None,
            },
    {
        let product_id = match get_str(fs, "product_id") {
            Some(v) => v,
            None => { return None },
        };
        let bids = match get_arr(fs, "bids") {
            Some(xs) => match vec_from_json::<Bid>(xs) {
                Some(v) => v,
                None => { return None },
            },
            None => { return None },
        };
        let asks = match get_arr(fs, "asks") {
            Some(xs) => match vec_from_json::<Ask>(xs) {
                Some(v) => v,
                None => { return None },
            },
            None => { return None },
        };
        let time = match get_datetime(fs, "time") {
            Some(v) => v,
            None => { return None },
        };
        Some(
            Pricebook {
                product_id: product_id.clone(),
                bids,
                asks,
                time: time.clone(),
            },
        )
    }
}

/// The envelope listing the pricebooks of several products.
#[derive(Debug, PartialEq)]
pub struct PricebooksResponse {
    pub pricebooks: Vec<Pricebook>,
}

/// The mathematical content of a [`PricebooksResponse`].
pub struct PricebooksResponseView {
    pub pricebooks: Seq<PricebookView>,
}

impl View for PricebooksResponse {
    type V = PricebooksResponseView;

    open spec fn view(&self) -> PricebooksResponseView {
        PricebooksResponseView { pricebooks: self.pricebooks@.map_values(|p: Pricebook| p@) }
    }
}

impl FromJson for PricebooksResponse {
    open spec fn from_json_spec(j: JsonValue) -> Option<PricebooksResponseView> {
        match j {
            JsonValue::Object(fs) => match arr_field(fs@, "pricebooks"@) {
                Some(xs) => match seq_of::<Pricebook>(xs) {
                    Some(ps) => Some(PricebooksResponseView { pricebooks: ps }),
                    None => None,
                },
                None => None,
            },
            _ => None,
        }
    }

    fn from_json(j: &JsonValue) -> (r: Option<PricebooksResponse>) {
        let fs = match j {
            JsonValue::Object(fs) => fs,
            _ => { return None },
        };
        match get_arr(fs, "pricebooks") {
            Some(xs) => match vec_from_json::<Pricebook>(xs) {
                Some(pricebooks) => Some(PricebooksResponse { pricebooks }),
                None => None,
            },
            None => None,
        }
    }
}

/// The envelope wrapping a single pricebook.
#[derive(Debug, PartialEq)]
pub struct PricebookResponse {
    pub pricebook: Pricebook,
}

/// The mathematical content of a [`PricebookResponse`].
pub struct PricebookResponseView {
    pub pricebook: PricebookView,
}

impl View for PricebookResponse {
    type V = PricebookResponseView;

    open spec fn view(&self) -> PricebookResponseView {
        PricebookResponseView { pricebook: self.pricebook@ }
    }
}

impl FromJson for PricebookResponse {
    open spec fn from_json_spec(j: JsonValue) -> Option<PricebookResponseView> {
        match j {
            JsonValue::Object(fs) => match obj_field(fs@, "pricebook"@) {
                Some(gs) => match pricebook_of_fields(gs) {
                    Some(p) => Some(PricebookResponseView { pricebook: p }),
                    None => None,
                },
                None => None,
            },
            _ => None,
        }
    }

    fn from_json(j: &JsonValue) -> (r: Option<PricebookResponse>) {
        let fs = match j {
            JsonValue::Object(fs) => fs,
            _ => { return None },
        };
        match get_obj(fs, "pricebook") {
            Some(gs) => match Pricebook::from_json_fields(gs) {
                Some(pricebook) => Some(PricebookResponse { pricebook }),
                None => None,
            },
            None => None,
        }
    }
}

/// One candle: a time bucket's price range and volume.
#[derive(Debug, PartialEq)]
pub struct Candle {
    /// Bucket start, in Unix seconds, as the service sends it: a string.
    pub start: String,
    pub low: String,
    pub high: String,
    pub open: String,
    pub close: String,
    pub volume: String,
}

/// The mathematical content of a [`Candle`].
pub struct CandleView {
    pub start: Seq<char>,
    pub low: Seq<char>,
    pub high: Seq<char>,
    pub open: Seq<char>,
    pub close: Seq<char>,
    pub volume: Seq<char>,
}

impl View for Candle {
    type V = CandleView;

    open spec fn view(&self) -> CandleView {
        CandleView {
            start: self.start@,
            low: self.low@,
            high: self.high@,
            open: self.open@,
            close: self.close@,
            volume: self.volume@,
        }
    }
}

impl FromJson for Candle {
    open spec fn from_json_spec(j: JsonValue) -> Option<CandleView> {
        match j {
            JsonValue::Object(fs) => {
                let start = str_field(fs@, "start"@);
                let low = decimal_field(fs@, "low"@);
                let high = decimal_field(fs@, "high"@);
                let open = decimal_field(fs@, "open"@);
                let close = decimal_field(fs@, "close"@);
                let volume = decimal_field(fs@, "volume"@);
                if start is None || low is None || high is None || open is None || close is None
                    || volume is None {
                    None
                } else {
                    Some(
                        CandleView {
                            start: start->0,
                            low: low->0,
                            high: high->0,
                            open: open->0,
                            close: close->0,
                            volume: volume->0,
                        },
                    )
                }
            },
            _ => None,
        }
    }

    fn from_json(j: &JsonValue) -> (r: Option<Candle>) {
        let fs = match j {
            JsonValue::Object(fs) => fs,
            _ => { return None },
        };
        let start = match get_str(fs, "start") {
            Some(v) => v,
            None => { return None },
        };
        let low = match get_decimal(fs, "low") {
            Some(v) => v,
            None => { return None },
        };
        let high = match get_decimal(fs, "high") {
            Some(v) => v,
            None => { return None },
        };
        let open = match get_decimal(fs, "open") {
            Some(v) => v,
            None => { return None },
        };
        let close = match get_decimal(fs, "close") {
            Some(v) => v,
            None => { return None },
        };
        let volume = match get_decimal(fs, "volume") {
            Some(v) => v,
            None => { return None },
        };
        Some(
            Candle {
                start: start.clone(),
                low: low.clone(),
                high: high.clone(),
                open: open.clone(),
                close: close.clone(),
                volume: volume.clone(),
            },
        )
    }
}

/// The envelope wrapping a list of candles.
#[derive(Debug, PartialEq)]
pub struct CandlesResponse {
    pub candles: Vec<Candle>,
}

/// The mathematical content of a [`CandlesResponse`].
pub struct CandlesResponseView {
    pub candles: Seq<CandleView>,
}

impl View for CandlesResponse {
    type V = CandlesResponseView;

    open spec fn view(&self) -> CandlesResponseView {
        CandlesResponseView { candles: self.candles@.map_values(|c: Candle| c@) }
    }
}

impl FromJson for CandlesResponse {
    open spec fn from_json_spec(j: JsonValue) -> Option<CandlesResponseView> {
        match j {
            JsonValue::Object(fs) => match arr_field(fs@, "candles"@) {
                Some(xs) => match seq_of::<Candle>(xs) {
                    Some(cs) => Some(CandlesResponseView { candles: cs }),
                    None => None,
                },
                None => None,
            },
            _ => None,
        }
    }

    fn from_json(j: &JsonValue) -> (r: Option<CandlesResponse>) {
        let fs = match j {
            JsonValue::Object(fs) => fs,
            _ => { return None },
        };
        match get_arr(fs, "candles") {
            Some(xs) => match vec_from_json::<Candle>(xs) {
                Some(candles) => Some(CandlesResponse { candles }),
                None => None,
            },
            None => None,
        }
    }
}

/// One trade of a product's recent history.
#[derive(Debug, PartialEq)]
pub struct Trade {
    pub trade_id: String,
    pub product_id: String,
    pub price: String,
    pub size: String,
    pub time: String,
    pub side: Side,
    /// The best bid at the time, where the service sent one; it sends
    /// the empty string for "none".
    pub bid: Option<String>,
    pub ask: Option<String>,
}

/// The mathematical content of a [`Trade`].
pub struct TradeView {
    pub trade_id: Seq<char>,
    pub product_id: Seq<char>,
    pub price: Seq<char>,
    pub size: Seq<char>,
    pub time: Seq<char>,
    pub side: Side,
    pub bid: Option<Seq<char>>,
    pub ask: Option<Seq<char>>,
}

impl View for Trade {
    type V = TradeView;

    open spec fn view(&self) -> TradeView {
        TradeView {
            trade_id: self.trade_id@,
            product_id: self.product_id@,
            price: self.price@,
            size: self.size@,
            time: self.time@,
            side: self.side,
            bid: opt_view(self.bid),
            ask: opt_view(self.ask),
        }
    }
}

/// The trade carried by an object's members.
pub open spec fn trade_of_fields(fs: Seq<(String, JsonValue)>) -> Option<TradeView> {
    let trade_id = str_field(fs, "trade_id"@);
    let product_id = str_field(fs, "product_id"@);
    let price = decimal_field(fs, "price"@);
    let size = decimal_field(fs, "size"@);
    let time = datetime_field(fs, "time"@);
    let side = str_field(fs, "side"@);
    let bid = opt_str_field(fs, "bid"@);
    let ask = opt_str_field(fs, "ask"@);
    if trade_id is None || product_id is None || price is None || size is None || time is None
        || side is None || Side::from_wire_spec(side->0) is None || bid is None || ask is None {
        None
    } else {
        Some(
            TradeView {
                trade_id: trade_id->0,
                product_id: product_id->0,
                price: price->0,
                size: size->0,
                time: time->0,
                side: Side::from_wire_spec(side->0)->0,
                bid: bid->0,
                ask: ask->0,
            },
        )
    }
}

impl FromJson for Trade {
    open spec fn from_json_spec(j: JsonValue) -> Option<TradeView> {
        match j {
            JsonValue::Object(fs) => trade_of_fields(fs@),
            _ => None,
        }
    }

    fn from_json(j: &JsonValue) -> (r: Option<Trade>) {
        let fs = match j {
            JsonValue::Object(fs) => fs,
            _ => { return None },
        };
        let trade_id = match get_str(fs, "trade_id") {
            Some(v) => v,
            None => { return None },
        };
        let product_id = match get_str(fs, "product_id") {
            Some(v) => v,
            None => { return None },
        };
        let price = match get_decimal(fs, "price") {
            Some(v) => v,
            None => { return None },
        };
        let size = match get_decimal(fs, "size") {
            Some(v) => v,
            None => { return None },
        };
        let time = match get_datetime(fs, "time") {
            Some(v) => v,
            None => { return None },
        };
        let side = match get_str(fs, "side") {
            Some(v) => match Side::from_wire(v.as_str()) {
                Some(s) => s,
                None => { return None },
            },
            None => { return None },
        };
        let bid = match get_opt_str(fs, "bid") {
            Some(v) => v,
            None => { return None },
        };
        let ask = match get_opt_str(fs, "ask") {
            Some(v) => v,
            None => { return None },
        };
        Some(
            Trade {
                trade_id: trade_id.clone(),
                product_id: product_id.clone(),
                price: price.clone(),
                size: size.clone(),
                time: time.clone(),
                side,
                bid: clone_opt(bid),
                ask: clone_opt(ask),
            },
        )
    }
}

/// The snapshot of a product's recent trades and best bid/ask.
#[derive(Debug, PartialEq)]
pub struct MarketTrades {
    pub trades: Vec<Trade>,
    pub best_bid: String,
    pub best_ask: String,
}

/// The mathematical content of a [`MarketTrades`].
pub struct MarketTradesView {
    pub trades: Seq<TradeView>,
    pub best_bid: Seq<char>,
    pub best_ask: Seq<char>,
}

impl View for MarketTrades {
    type V = MarketTradesView;

    open spec fn view(&self) -> MarketTradesView {
        MarketTradesView {
            trades: self.trades@.map_values(|t: Trade| t@),
            best_bid: self.best_bid@,
            best_ask: self.best_ask@,
        }
    }
}

impl FromJson for MarketTrades {
    open spec fn from_json_spec(j: JsonValue) -> Option<MarketTradesView> {
        match j {
            JsonValue::Object(fs) => {
                let trades = arr_field(fs@, "trades"@);
                let best_bid = decimal_field(fs@, "best_bid"@);
                let best_ask = decimal_field(fs@, "best_ask"@);
                if trades is None || seq_of::<Trade>(trades->0) is None || best_bid is None
                    || best_ask is None {
                    None
                } else {
                    Some(
                        MarketTradesView {
                            trades: seq_of::<Trade>(trades->0)->0,
                            best_bid: best_bid->0,
                            best_ask: best_ask->0,
                        },
                    )
                }
            },
            _ => None,
        }
    }

    fn from_json(j: &JsonValue) -> (r: Option<MarketTrades>) {
        let fs = match j {
            JsonValue::Object(fs) => fs,
            _ => { return None },
        };
        let trades = match get_arr(fs, "trades") {
            Some(xs) => match vec_from_json::<Trade>(xs) {
                Some(v) => v,
                None => { return None },
            },
            None => { return None },
        };
        let best_bid = match get_decimal(fs, "best_bid") {
            Some(v) => v,
            None => { return None },
        };
        let best_ask = match get_decimal(fs, "best_ask") {
            Some(v) => v,
            None => { return None },
        };
        Some(
            MarketTrades {
                trades,
                best_bid: best_bid.clone(),
                best_ask: best_ask.clone(),
            },
        )
    }
}

/// Details of a futures-commission-merchant trading session.
#[derive(Debug, PartialEq)]
pub struct FcmTradingSessionDetails {
    pub is_session_open: bool,
    pub open_time: String,
    pub close_time: Option<String>,
}

/// The mathematical content of a [`FcmTradingSessionDetails`].
pub struct FcmTradingSessionDetailsView {
    pub is_session_open: bool,
    pub open_time: Seq<char>,
    pub close_time: Option<Seq<char>>,
}

impl View for FcmTradingSessionDetails {
    type V = FcmTradingSessionDetailsView;

    open spec fn view(&self) -> FcmTradingSessionDetailsView {
        FcmTradingSessionDetailsView {
            is_session_open: self.is_session_open,
            open_time: self.open_time@,
            close_time: opt_view(self.close_time),
        }
    }
}

/// The session details carried by an object's members.
pub open spec fn fcm_details_of_fields(fs: Seq<(String, JsonValue)>) -> Option<
    FcmTradingSessionDetailsView,
> {
    let is_session_open = bool_field(fs, "is_session_open"@);
    let open_time = datetime_field(fs, "open_time"@);
    let close_time = opt_datetime_field(fs, "close_time"@);
    if is_session_open is None || open_time is None || close_time is None {
        None
    } else {
        Some(
            FcmTradingSessionDetailsView {
                is_session_open: is_session_open->0,
                open_time: open_time->0,
                close_time: close_time->0,
            },
        )
    }
}

impl FromJson for FcmTradingSessionDetails {
    open spec fn from_json_spec(j: JsonValue) -> Option<FcmTradingSessionDetailsView> {
        match j {
            JsonValue::Object(fs) => fcm_details_of_fields(fs@),
            _ => None,
        }
    }

    fn from_json(j: &JsonValue) -> (r: Option<FcmTradingSessionDetails>) {
        let fs = match j {
            JsonValue::Object(fs) => fs,
            _ => { return None },
        };
        FcmTradingSessionDetails::from_json_fields(fs)
    }
}

impl FcmTradingSessionDetails {
    /// Decodes session details from an object's members.
    pub fn from_json_fields(fs: &Vec<(String, JsonValue)>) -> (r: Option<
        FcmTradingSessionDetails,
    >)
        ensures
            match r {
                Some(d) => fcm_details_of_fields(fs@) == Some(d@),
                None => fcm_details_of_fields(fs@) is None,
            },
    {
        let is_session_open = match get_bool(fs, "is_session_open") {
            Some(v) => v,
            None => { return None },
        };
        let open_time = match get_datetime(fs, "open_time") {
            Some(v) => v,
            None => { return None },
        };
        let close_time = match get_opt_datetime(fs, "close_time") {
            Some(v) => v,
            None => { return None },
        };
        Some(
            FcmTradingSessionDetails {
                is_session_open,
                open_time: open_time.clone(),
                close_time: clone_opt(close_time),
            },
        )
    }
}

/// Details of a perpetual product.
#[derive(Debug, PartialEq)]
pub struct PerpetualDetails {
    pub open_interest: String,
    pub funding_rate: String,
    pub funding_time: Option<String>,
}

/// The mathematical content of a [`PerpetualDetails`].
pub struct PerpetualDetailsView {
    pub open_interest: Seq<char>,
    pub funding_rate: Seq<char>,
    pub funding_time: Option<Seq<char>>,
}

impl View for PerpetualDetails {
    type V = PerpetualDetailsView;

    open spec fn view(&self) -> PerpetualDetailsView {
        PerpetualDetailsView {
            open_interest: self.open_interest@,
            funding_rate: self.funding_rate@,
            funding_time: opt_view(self.funding_time),
        }
    }
}

/// The perpetual details carried by an object's members.
pub open spec fn perpetual_details_of_fields(fs: Seq<(String, JsonValue)>) -> Option<
    PerpetualDetailsView,
> {
    let open_interest = str_field(fs, "open_interest"@);
    let funding_rate = str_field(fs, "funding_rate"@);
    let funding_time = opt_datetime_field(fs, "funding_time"@);
    if open_interest is None || funding_rate is None || funding_time is None {
        None
    } else {
        Some(
            PerpetualDetailsView {
                open_interest: open_interest->0,
                funding_rate: funding_rate->0,
                funding_time: funding_time->0,
            },
        )
    }
}

impl FromJson for PerpetualDetails {
    open spec fn from_json_spec(j: JsonValue) -> Option<PerpetualDetailsView> {
        match j {
            JsonValue::Object(fs) => perpetual_details_of_fields(fs@),
            _ => None,
        }
    }

    fn from_json(j: &JsonValue) -> (r: Option<PerpetualDetails>) {
        let fs = match j {
            JsonValue::Object(fs) => fs,
            _ => { return None },
        };
        PerpetualDetails::from_json_fields(fs)
    }
}

impl PerpetualDetails {
    /// Decodes perpetual details from an object's members.
    pub fn from_json_fields(fs: &Vec<(String, JsonValue)>) -> (r: Option<PerpetualDetails>)
        ensures
            match r {
                Some(d) => perpetual_details_of_fields(fs@) == Some(d@),
                None => perpetual_details_of_fields(fs@) is None,
            },
    {
        let open_interest = match get_str(fs, "open_interest") {
            Some(v) => v,
            None => { return None },
        };
        let funding_rate = match get_str(fs, "funding_rate") {
            Some(v) => v,
            None => { return None },
        };
        let funding_time = match get_opt_datetime(fs, "funding_time") {
            Some(v) => v,
            None => { return None },
        };
        Some(
            PerpetualDetails {
                open_interest: open_interest.clone(),
                funding_rate: funding_rate.clone(),
                funding_time: clone_opt(funding_time),
            },
        )
    }
}

/// Details of a future product.
#[derive(Debug, PartialEq)]
pub struct FutureProductDetails {
    pub venue: String,
    pub contract_code: String,
    pub contract_expiry: String,
    pub contract_size: String,
    pub contract_root_unit: String,
    /// Descriptive name for the product series, e.g. "Nano Bitcoin
    /// Futures".
    pub group_description: String,
    pub contract_expiry_timezone: String,
    /// Short version of the group description, e.g. "Nano BTC".
    pub group_short_description: String,
    pub risk_managed_by: String,
    pub contract_expiry_type: String,
    pub perpetual_details: PerpetualDetails,
    pub contract_display_name: String,
}

/// The mathematical content of a [`FutureProductDetails`].
pub struct FutureProductDetailsView {
    pub venue: Seq<char>,
    pub contract_code: Seq<char>,
    pub contract_expiry: Seq<char>,
    pub contract_size: Seq<char>,
    pub contract_root_unit: Seq<char>,
    pub group_description: Seq<char>,
    pub contract_expiry_timezone: Seq<char>,
    pub group_short_description: Seq<char>,
    pub risk_managed_by: Seq<char>,
    pub contract_expiry_type: Seq<char>,
    pub perpetual_details: PerpetualDetailsView,
    pub contract_display_name: Seq<char>,
}

impl View for FutureProductDetails {
    type V = FutureProductDetailsView;

    open spec fn view(&self) -> FutureProductDetailsView {
        FutureProductDetailsView {
            venue: self.venue@,
            contract_code: self.contract_code@,
            contract_expiry: self.contract_expiry@,
            contract_size: self.contract_size@,
            contract_root_unit: self.contract_root_unit@,
            group_description: self.group_description@,
            contract_expiry_timezone: self.contract_expiry_timezone@,
            group_short_description: self.group_short_description@,
            risk_managed_by: self.risk_managed_by@,
            contract_expiry_type: self.contract_expiry_type@,
            perpetual_details: self.perpetual_details@,
            contract_display_name: self.contract_display_name@,
        }
    }
}

/// The future-product details carried by an object's members.
pub open spec fn future_details_of_fields(fs: Seq<(String, JsonValue)>) -> Option<
    FutureProductDetailsView,
> {
    let venue = str_field(fs, "venue"@);
    let contract_code = str_field(fs, "contract_code"@);
    let contract_expiry = datetime_field(fs, "contract_expiry"@);
    let contract_size = str_field(fs, "contract_size"@);
    let contract_root_unit = str_field(fs, "contract_root_unit"@);
    let group_description = str_field(fs, "group_description"@);
    let contract_expiry_timezone = str_field(fs, "contract_expiry_timezone"@);
    let group_short_description = str_field(fs, "group_short_description"@);
    let risk_managed_by = str_field(fs, "risk_managed_by"@);
    let contract_expiry_type = str_field(fs, "contract_expiry_type"@);
    let perpetual_details = obj_field(fs, "perpetual_details"@);
    let contract_display_name = str_field(fs, "contract_display_name"@);
    if venue is None || contract_code is None || contract_expiry is None || contract_size is None
        || contract_root_unit is None || group_description is None
        || contract_expiry_timezone is None || group_short_description is None
        || risk_managed_by is None || contract_expiry_type is None || perpetual_details is None
        || perpetual_details_of_fields(perpetual_details->0) is None
        || contract_display_name is None {
        None
    } else {
        Some(
            FutureProductDetailsView {
                venue: venue->0,
                contract_code: contract_code->0,
                contract_expiry: contract_expiry->0,
                contract_size: contract_size->0,
                contract_root_unit: contract_root_unit->0,
                group_description: group_description->0,
                contract_expiry_timezone: contract_expiry_timezone->0,
                group_short_description: group_short_description->0,
                risk_managed_by: risk_managed_by->0,
                contract_expiry_type: contract_expiry_type->0,
                perpetual_details: perpetual_details_of_fields(perpetual_details->0)->0,
                contract_display_name: contract_display_name->0,
            },
        )
    }
}

impl FromJson for FutureProductDetails {
    open spec fn from_json_spec(j: JsonValue) -> Option<FutureProductDetailsView> {
        match j {
            JsonValue::Object(fs) => future_details_of_fields(fs@),
            _ => None,
        }
    }

    fn from_json(j: &JsonValue) -> (r: Option<FutureProductDetails>) {
        let fs = match j {
            JsonValue::Object(fs) => fs,
            _ => { return None },
        };
        FutureProductDetails::from_json_fields(fs)
    }
}

impl FutureProductDetails {
    /// Decodes future-product details from an object's members.
    pub fn from_json_fields(fs: &Vec<(String, JsonValue)>) -> (r: Option<FutureProductDetails>)
        ensures
            match r {
                Some(d) => future_details_of_fields(fs@) == Some(d@),
                None => future_details_of_fields(fs@) is None,
            },
    {
        let venue = match get_str(fs, "venue") {
            Some(v) => v,
            None => { return None },
        };
        let contract_code = match get_str(fs, "contract_code") {
            Some(v) => v,
            None => { return None },
        };
        let contract_expiry = match get_datetime(fs, "contract_expiry") {
            Some(v) => v,
            None => { return None },
        };
        let contract_size = match get_str(fs, "contract_size") {
            Some(v) => v,
            None => { return None },
        };
        let contract_root_unit = match get_str(fs, "contract_root_unit") {
            Some(v) => v,
            None => { return None },
        };
        let group_description = match get_str(fs, "group_description") {
            Some(v) => v,
            None => { return None },
        };
        let contract_expiry_timezone = match get_str(fs, "contract_expiry_timezone") {
            Some(v) => v,
            None => { return None },
        };
        let group_short_description = match get_str(fs, "group_short_description") {
            Some(v) => v,
            None => { return None },
        };
        let risk_managed_by = match get_str(fs, "risk_managed_by") {
            Some(v) => v,
            None => { return None },
        };
        let contract_expiry_type = match get_str(fs, "contract_expiry_type") {
            Some(v) => v,
            None => { return None },
        };
        let perpetual_details = match get_obj(fs, "perpetual_details") {
            Some(gs) => match PerpetualDetails::from_json_fields(gs) {
                Some(d) => d,
                None => { return None },
            },
            None => { return None },
        };
        let contract_display_name = match get_str(fs, "contract_display_name") {
            Some(v) => v,
            None => { return None },
        };
        Some(
            FutureProductDetails {
                venue: venue.clone(),
                contract_code: contract_code.clone(),
                contract_expiry: contract_expiry.clone(),
                contract_size: contract_size.clone(),
                contract_root_unit: contract_root_unit.clone(),
                group_description: group_description.clone(),
                contract_expiry_timezone: contract_expiry_timezone.clone(),
                group_short_description: group_short_description.clone(),
                risk_managed_by: risk_managed_by.clone(),
                contract_expiry_type: contract_expiry_type.clone(),
                perpetual_details,
                contract_display_name: contract_display_name.clone(),
            },
        )
    }
}

/// One tradable product.  Prices and sizes are arbitrary-precision
/// decimals carried as text; the four statistics fields are read
/// leniently because the service reports missing numbers as `""`.
#[derive(Debug, PartialEq)]
pub struct Product {
    pub product_id: String,
    pub price: Option<String>,
    pub price_percentage_change_24h: Option<String>,
    pub volume_24h: Option<String>,
    pub volume_percentage_change_24h: Option<String>,
    pub base_increment: String,
    pub quote_increment: String,
    pub quote_min_size: String,
    pub quote_max_size: String,
    pub base_min_size: String,
    pub base_max_size: String,
    pub base_name: String,
    pub quote_name: String,
    pub watched: bool,
    pub is_disabled: bool,
    pub new: bool,
    pub status: String,
    pub cancel_only: bool,
    pub limit_only: bool,
    pub post_only: bool,
    pub trading_disabled: bool,
    pub auction_mode: bool,
    pub product_type: String,
    pub quote_currency_id: String,
    pub base_currency_id: String,
    pub fcm_trading_session_details: Option<FcmTradingSessionDetails>,
    pub mid_market_price: String,
    pub alias: String,
    pub alias_to: Vec<String>,
    pub base_display_symbol: String,
    pub quote_display_symbol: String,
    pub view_only: bool,
    pub price_increment: String,
    pub future_product_details: Option<FutureProductDetails>,
}

/// The mathematical content of a [`Product`].
pub struct ProductView {
    pub product_id: Seq<char>,
    pub price: Option<Seq<char>>,
    pub price_percentage_change_24h: Option<Seq<char>>,
    pub volume_24h: Option<Seq<char>>,
    pub volume_percentage_change_24h: Option<Seq<char>>,
    pub base_increment: Seq<char>,
    pub quote_increment: Seq<char>,
    pub quote_min_size: Seq<char>,
    pub quote_max_size: Seq<char>,
    pub base_min_size: Seq<char>,
    pub base_max_size: Seq<char>,
    pub base_name: Seq<char>,
    pub quote_name: Seq<char>,
    pub watched: bool,
    pub is_disabled: bool,
    pub new: bool,
    pub status: Seq<char>,
    pub cancel_only: bool,
    pub limit_only: bool,
    pub post_only: bool,
    pub trading_disabled: bool,
    pub auction_mode: bool,
    pub product_type: Seq<char>,
    pub quote_currency_id: Seq<char>,
    pub base_currency_id: Seq<char>,
    pub fcm_trading_session_details: Option<FcmTradingSessionDetailsView>,
    pub mid_market_price: Seq<char>,
    pub alias: Seq<char>,
    pub alias_to: Seq<Seq<char>>,
    pub base_display_symbol: Seq<char>,
    pub quote_display_symbol: Seq<char>,
    pub view_only: bool,
    pub price_increment: Seq<char>,
    pub future_product_details: Option<FutureProductDetailsView>,
}

impl View for Product {
    type V = ProductView;

    open spec fn view(&self) -> ProductView {
        ProductView {
            product_id: self.product_id@,
            price: opt_view(self.price),
            price_percentage_change_24h: opt_view(self.price_percentage_change_24h),
            volume_24h: opt_view(self.volume_24h),
            volume_percentage_change_24h: opt_view(self.volume_percentage_change_24h),
            base_increment: self.base_increment@,
            quote_increment: self.quote_increment@,
            quote_min_size: self.quote_min_size@,
            quote_max_size: self.quote_max_size@,
            base_min_size: self.base_min_size@,
            base_max_size: self.base_max_size@,
            base_name: self.base_name@,
            quote_name: self.quote_name@,
            watched: self.watched,
            is_disabled: self.is_disabled,
            new: self.new,
            status: self.status@,
            cancel_only: self.cancel_only,
            limit_only: self.limit_only,
            post_only: self.post_only,
            trading_disabled: self.trading_disabled,
            auction_mode: self.auction_mode,
            product_type: self.product_type@,
            quote_currency_id: self.quote_currency_id@,
            base_currency_id: self.base_currency_id@,
            fcm_trading_session_details: match self.fcm_trading_session_details {
                Some(d) => Some(d@),
                None => None,
            },
            mid_market_price: self.mid_market_price@,
            alias: self.alias@,
            alias_to: self.alias_to@.map_values(|s: String| s@),
            base_display_symbol: self.base_display_symbol@,
            quote_display_symbol: self.quote_display_symbol@,
            view_only: self.view_only,
            price_increment: self.price_increment@,
            future_product_details: match self.future_product_details {
                Some(d) => Some(d@),
                None => None,
            },
        }
    }
}

/// The product carried by an object's members.
pub open spec fn product_of_fields(fs: Seq<(String, JsonValue)>) -> Option<ProductView> {
    let product_id = str_field(fs, "product_id"@);
    let price = opt_lenient_decimal_field(fs, "price"@);
    let ppc = opt_lenient_decimal_field(fs, "price_percentage_change_24h"@);
    let volume = opt_lenient_decimal_field(fs, "volume_24h"@);
    let vpc = opt_lenient_decimal_field(fs, "volume_percentage_change_24h"@);
    let base_increment = decimal_field(fs, "base_increment"@);
    let quote_increment = decimal_field(fs, "quote_increment"@);
    let quote_min_size = decimal_field(fs, "quote_min_size"@);
    let quote_max_size = decimal_field(fs, "quote_max_size"@);
    let base_min_size = decimal_field(fs, "base_min_size"@);
    let base_max_size = decimal_field(fs, "base_max_size"@);
    let base_name = str_field(fs, "base_name"@);
    let quote_name = str_field(fs, "quote_name"@);
    let watched = bool_field(fs, "watched"@);
    let is_disabled = bool_field(fs, "is_disabled"@);
    let is_new = bool_field(fs, "new"@);
    let status = str_field(fs, "status"@);
    let cancel_only = bool_field(fs, "cancel_only"@);
    let limit_only = bool_field(fs, "limit_only"@);
    let post_only = bool_field(fs, "post_only"@);
    let trading_disabled = bool_field(fs, "trading_disabled"@);
    let auction_mode = bool_field(fs, "auction_mode"@);
    let product_type = str_field(fs, "product_type"@);
    let quote_currency_id = str_field(fs, "quote_currency_id"@);
    let base_currency_id = str_field(fs, "base_currency_id"@);
    let fcm = opt_obj_field(fs, "fcm_trading_session_details"@);
    let mid_market_price = str_field(fs, "mid_market_price"@);
    let alias = str_field(fs, "alias"@);
    let alias_to = arr_field(fs, "alias_to"@);
    let base_display_symbol = str_field(fs, "base_display_symbol"@);
    let quote_display_symbol = str_field(fs, "quote_display_symbol"@);
    let view_only = bool_field(fs, "view_only"@);
    let price_increment = decimal_field(fs, "price_increment"@);
    let future = opt_obj_field(fs, "future_product_details"@);
    if product_id is None || price is None || ppc is None || volume is None || vpc is None
        || base_increment is None || quote_increment is None || quote_min_size is None
        || quote_max_size is None || base_min_size is None || base_max_size is None
        || base_name is None || quote_name is None || watched is None || is_disabled is None
        || is_new is None || status is None || cancel_only is None || limit_only is None
        || post_only is None || trading_disabled is None || auction_mode is None
        || product_type is None || quote_currency_id is None || base_currency_id is None
        || fcm is None || opt_fcm_of(fcm->0) is None || mid_market_price is None || alias is None
        || alias_to is None || strings_of(alias_to->0) is None || base_display_symbol is None
        || quote_display_symbol is None || view_only is None || price_increment is None
        || future is None || opt_future_of(future->0) is None {
        None
    } else {
        Some(
            ProductView {
                product_id: product_id->0,
                price: price->0,
                price_percentage_change_24h: ppc->0,
                volume_24h: volume->0,
                volume_percentage_change_24h: vpc->0,
                base_increment: base_increment->0,
                quote_increment: quote_increment->0,
                quote_min_size: quote_min_size->0,
                quote_max_size: quote_max_size->0,
                base_min_size: base_min_size->0,
                base_max_size: base_max_size->0,
                base_name: base_name->0,
                quote_name: quote_name->0,
                watched: watched->0,
                is_disabled: is_disabled->0,
                new: is_new->0,
                status: status->0,
                cancel_only: cancel_only->0,
                limit_only: limit_only->0,
                post_only: post_only->0,
                trading_disabled: trading_disabled->0,
                auction_mode: auction_mode->0,
                product_type: product_type->0,
                quote_currency_id: quote_currency_id->0,
                base_currency_id: base_currency_id->0,
                fcm_trading_session_details: opt_fcm_of(fcm->0)->0,
                mid_market_price: mid_market_price->0,
                alias: alias->0,
                alias_to: strings_of(alias_to->0)->0,
                base_display_symbol: base_display_symbol->0,
                quote_display_symbol: quote_display_symbol->0,
                view_only: view_only->0,
                price_increment: price_increment->0,
                future_product_details: opt_future_of(future->0)->0,
            },
        )
    }
}

/// Session details of an optional member: absent stays absent, a
/// present object must decode.
pub open spec fn opt_fcm_of(o: Option<Seq<(String, JsonValue)>>) -> Option<
    Option<FcmTradingSessionDetailsView>,
> {
    match o {
        None => Some(None),
        Some(gs) => match fcm_details_of_fields(gs) {
            Some(d) => Some(Some(d)),
            None => None,
        },
    }
}

/// Future-product details of an optional member.
pub open spec fn opt_future_of(o: Option<Seq<(String, JsonValue)>>) -> Option<
    Option<FutureProductDetailsView>,
> {
    match o {
        None => Some(None),
        Some(gs) => match future_details_of_fields(gs) {
            Some(d) => Some(Some(d)),
            None => None,
        },
    }
}

impl FromJson for Product {
    open spec fn from_json_spec(j: JsonValue) -> Option<ProductView> {
        match j {
            JsonValue::Object(fs) => product_of_fields(fs@),
            _ => None,
        }
    }

    #[verifier::rlimit(60)]
    fn from_json(j: &JsonValue) -> (r: Option<Product>) {
        let fs = match j {
            JsonValue::Object(fs) => fs,
            _ => { return None },
        };
        let product_id = match get_str(fs, "product_id") {
            Some(v) => v.clone(),
            None => { return None },
        };
        let price = match get_opt_lenient_decimal(fs, "price") {
            Some(v) => clone_opt(v),
            None => { return None },
        };
        let ppc = match get_opt_lenient_decimal(fs, "price_percentage_change_24h") {
            Some(v) => clone_opt(v),
            None => { return None },
        };
        let volume = match get_opt_lenient_decimal(fs, "volume_24h") {
            Some(v) => clone_opt(v),
            None => { return None },
        };
        let vpc = match get_opt_lenient_decimal(fs, "volume_percentage_change_24h") {
            Some(v) => clone_opt(v),
            None => { return None },
        };
        let base_increment = match get_decimal(fs, "base_increment") {
            Some(v) => v.clone(),
            None => { return None },
        };
        let quote_increment = match get_decimal(fs, "quote_increment") {
            Some(v) => v.clone(),
            None => { return None },
        };
        let quote_min_size = match get_decimal(fs, "quote_min_size") {
            Some(v) => v.clone(),
            None => { return None },
        };
        let quote_max_size = match get_decimal(fs, "quote_max_size") {
            Some(v) => v.clone(),
            None => { return None },
        };
        let base_min_size = match get_decimal(fs, "base_min_size") {
            Some(v) => v.clone(),
            None => { return None },
        };
        let base_max_size = match get_decimal(fs, "base_max_size") {
            Some(v) => v.clone(),
            None => { return None },
        };
        let base_name = match get_str(fs, "base_name") {
            Some(v) => v.clone(),
            None => { return None },
        };
        let quote_name = match get_str(fs, "quote_name") {
            Some(v) => v.clone(),
            None => { return None },
        };
        let watched = match get_bool(fs, "watched") {
            Some(v) => v,
            None => { return None },
        };
        let is_disabled = match get_bool(fs, "is_disabled") {
            Some(v) => v,
            None => { return None },
        };
        let is_new = match get_bool(fs, "new") {
            Some(v) => v,
            None => { return None },
        };
        let status = match get_str(fs, "status") {
            Some(v) => v.clone(),
            None => { return None },
        };
        let cancel_only = match get_bool(fs, "cancel_only") {
            Some(v) => v,
            None => { return None },
        };
        let limit_only = match get_bool(fs, "limit_only") {
            Some(v) => v,
            None => { return None },
        };
        let post_only = match get_bool(fs, "post_only") {
            Some(v) => v,
            None => { return None },
        };
        let trading_disabled = match get_bool(fs, "trading_disabled") {
            Some(v) => v,
            None => { return None },
        };
        let auction_mode = match get_bool(fs, "auction_mode") {
            Some(v) => v,
            None => { return None },
        };
        let product_type = match get_str(fs, "product_type") {
            Some(v) => v.clone(),
            None => { return None },
        };
        let quote_currency_id = match get_str(fs, "quote_currency_id") {
            Some(v) => v.clone(),
            None => { return None },
        };
        let base_currency_id = match get_str(fs, "base_currency_id") {
            Some(v) => v.clone(),
            None => { return None },
        };
        let fcm_trading_session_details = match get_opt_obj(fs, "fcm_trading_session_details") {
            Some(Some(gs)) => match FcmTradingSessionDetails::from_json_fields(gs) {
                Some(d) => Some(d),
                None => { return None },
            },
            Some(None) => None,
            None => { return None },
        };
        let mid_market_price = match get_str(fs, "mid_market_price") {
            Some(v) => v.clone(),
            None => { return None },
        };
        let alias = match get_str(fs, "alias") {
            Some(v) => v.clone(),
            None => { return None },
        };
        let alias_to = match get_arr(fs, "alias_to") {
            Some(xs) => match vec_strings_from_json(xs) {
                Some(v) => v,
                None => { return None },
            },
            None => { return None },
        };
        let base_display_symbol = match get_str(fs, "base_display_symbol") {
            Some(v) => v.clone(),
            None => { return None },
        };
        let quote_display_symbol = match get_str(fs, "quote_display_symbol") {
            Some(v) => v.clone(),
            None => { return None },
        };
        let view_only = match get_bool(fs, "view_only") {
            Some(v) => v,
            None => { return None },
        };
        let price_increment = match get_decimal(fs, "price_increment") {
            Some(v) => v.clone(),
            None => { return None },
        };
        let future_product_details = match get_opt_obj(fs, "future_product_details") {
            Some(Some(gs)) => match FutureProductDetails::from_json_fields(gs) {
                Some(d) => Some(d),
                None => { return None },
            },
            Some(None) => None,
            None => { return None },
        };
        Some(
            Product {
                product_id,
                price,
                price_percentage_change_24h: ppc,
                volume_24h: volume,
                volume_percentage_change_24h: vpc,
                base_increment,
                quote_increment,
                quote_min_size,
                quote_max_size,
                base_min_size,
                base_max_size,
                base_name,
                quote_name,
                watched,
                is_disabled,
                new: is_new,
                status,
                cancel_only,
                limit_only,
                post_only,
                trading_disabled,
                auction_mode,
                product_type,
                quote_currency_id,
                base_currency_id,
                fcm_trading_session_details,
                mid_market_price,
                alias,
                alias_to,
                base_display_symbol,
                quote_display_symbol,
                view_only,
                price_increment,
                future_product_details,
            },
        )
    }
}

/// The envelope listing several products.
#[derive(Debug, PartialEq)]
pub struct ProductsResponse {
    pub products: Vec<Product>,
    pub num_products: i32,
}

/// The mathematical content of a [`ProductsResponse`].
pub struct ProductsResponseView {
    pub products: Seq<ProductView>,
    pub num_products: int,
}

impl View for ProductsResponse {
    type V = ProductsResponseView;

    open spec fn view(&self) -> ProductsResponseView {
        ProductsResponseView {
            products: self.products@.map_values(|p: Product| p@),
            num_products: self.num_products as int,
        }
    }
}

impl FromJson for ProductsResponse {
    open spec fn from_json_spec(j: JsonValue) -> Option<ProductsResponseView> {
        match j {
            JsonValue::Object(fs) => {
                let products = arr_field(fs@, "products"@);
                let num = num_field(fs@, "num_products"@);
                if products is None || seq_of::<Product>(products->0) is None || num is None
                    || int_token_value(num->0) is None || int_token_value(num->0)->0
                    < -2147483648 || int_token_value(num->0)->0 > 2147483647 {
                    None
                } else {
                    Some(
                        ProductsResponseView {
                            products: seq_of::<Product>(products->0)->0,
                            num_products: int_token_value(num->0)->0,
                        },
                    )
                }
            },
            _ => None,
        }
    }

    fn from_json(j: &JsonValue) -> (r: Option<ProductsResponse>) {
        let fs = match j {
            JsonValue::Object(fs) => fs,
            _ => { return None },
        };
        let products = match get_arr(fs, "products") {
            Some(xs) => match vec_from_json::<Product>(xs) {
                Some(v) => v,
                None => { return None },
            },
            None => { return None },
        };
        let num_products = match get_num(fs, "num_products") {
            Some(tok) => match parse_int_in(tok.as_str(), -2147483648i64, 2147483647i64) {
                Some(v) => v as i32,
                None => { return None },
            },
            None => { return None },
        };
        Some(ProductsResponse { products, num_products })
    }
}

} // verus!

//! Orders: the data model and decoders for the order endpoints, the
//! builders that assemble new orders, and the writer that frames an
//! order as the JSON body of a POST.

use vstd::prelude::*;

use crate::checks::{decimal_ok, decimal_parses, new_uuid_v4_string, uuid_parses};
use crate::encode::{append_jstr, jstr};
use vstd::seq_lib::lemma_concat_associative;
use crate::error::{CbError, CbErrorView};
use crate::json::{arr_field, bool_field, datetime_field, decimal_field, get_arr, get_bool,
    get_datetime, get_decimal, get_num, get_obj, get_opt_bool, get_opt_datetime,
    get_opt_decimal, get_opt_obj, get_opt_str, get_str, num_field, obj_field,
    opt_bool_field, opt_datetime_field, opt_decimal_field, opt_obj_field, opt_str_field,
    seq_of, str_field, vec_from_json, FromJson, JsonValue};
use crate::products::{ProductType, Side, TradeType};
use crate::strutil::{clone_opt, opt_view, str_eq};
use crate::datetime::{rfc3339_utc_of, UtcTimestamp};

/// The side of an order; the service shares the value space with trades.
pub use crate::products::Side as OrderSide;

verus! {

/// The direction a stop order triggers in.
#[derive(Debug, PartialEq, Eq, Structural, Clone, Copy)]
pub enum StopDirection {
    UnknownStopDirection,
    StopDirectionStopUp,
    StopDirectionStopDown,
}

impl StopDirection {
    /// The wire name of this value.
    pub open spec fn wire_spec(self) -> Seq<char> {
        match self {
            StopDirection::UnknownStopDirection => "UNKNOWN_STOP_DIRECTION"@,
            StopDirection::StopDirectionStopUp => "STOP_DIRECTION_STOP_UP"@,
            StopDirection::StopDirectionStopDown => "STOP_DIRECTION_STOP_DOWN"@,
        }
    }

    /// Renders this value as its wire name.
    pub fn wire_name(&self) -> (r: &'static str)
        ensures
            r@ == self.wire_spec(),
    {
        match self {
            StopDirection::UnknownStopDirection => "UNKNOWN_STOP_DIRECTION",
            StopDirection::StopDirectionStopUp => "STOP_DIRECTION_STOP_UP",
            StopDirection::StopDirectionStopDown => "STOP_DIRECTION_STOP_DOWN",
        }
    }

    /// The value a wire name stands for; `None` for an unknown name.
    pub open spec fn from_wire_spec(s: Seq<char>) -> Option<StopDirection> {
        if s == "UNKNOWN_STOP_DIRECTION"@ {
            Some(StopDirection::UnknownStopDirection)
        } else if s == "STOP_DIRECTION_STOP_UP"@ {
            Some(StopDirection::StopDirectionStopUp)
        } else if s == "STOP_DIRECTION_STOP_DOWN"@ {
            Some(StopDirection::StopDirectionStopDown)
        } else {
            None
        }
    }

    /// Reads a wire name.
    pub fn from_wire(s: &str) -> (r: Option<StopDirection>)
        ensures
            r == Self::from_wire_spec(s@),
    {
        if str_eq(s, "UNKNOWN_STOP_DIRECTION") {
            Some(StopDirection::UnknownStopDirection)
        } else if str_eq(s, "STOP_DIRECTION_STOP_UP") {
            Some(StopDirection::StopDirectionStopUp)
        } else if str_eq(s, "STOP_DIRECTION_STOP_DOWN") {
            Some(StopDirection::StopDirectionStopDown)
        } else {
            None
        }
    }
}

/// The lifecycle status of an order.
#[derive(Debug, PartialEq, Eq, Structural, Clone, Copy)]
pub enum Status {
    Open,
    Filled,
    Cancelled,
    Expired,
    Failed,
    UnknownOrderStatus,
}

impl Status {
    /// The wire name of this value.
    pub open spec fn wire_spec(self) -> Seq<char> {
        match self {
            Status::Open => "OPEN"@,
            Status::Filled => "FILLED"@,
            Status::Cancelled => "CANCELLED"@,
            Status::Expired => "EXPIRED"@,
            Status::Failed => "FAILED"@,
            Status::UnknownOrderStatus => "UNKNOWN_ORDER_STATUS"@,
        }
    }

    /// Renders this value as its wire name.
    pub fn wire_name(&self) -> (r: &'static str)
        ensures
            r@ == self.wire_spec(),
    {
        match self {
            Status::Open => "OPEN",
            Status::Filled => "FILLED",
            Status::Cancelled => "CANCELLED",
            Status::Expired => "EXPIRED",
            Status::Failed => "FAILED",
            Status::UnknownOrderStatus => "UNKNOWN_ORDER_STATUS",
        }
    }

    /// The value a wire name stands for; `None` for an unknown name.
    pub open spec fn from_wire_spec(s: Seq<char>) -> Option<Status> {
        if s == "OPEN"@ {
            Some(Status::Open)
        } else if s == "FILLED"@ {
            Some(Status::Filled)
        } else if s == "CANCELLED"@ {
            Some(Status::Cancelled)
        } else if s == "EXPIRED"@ {
            Some(Status::Expired)
        } else if s == "FAILED"@ {
            Some(Status::Failed)
        } else if s == "UNKNOWN_ORDER_STATUS"@ {
            Some(Status::UnknownOrderStatus)
        } else {
            None
        }
    }

    /// Reads a wire name.
    pub fn from_wire(s: &str) -> (r: Option<Status>)
        ensures
            r == Self::from_wire_spec(s@),
    {
        if str_eq(s, "OPEN") {
            Some(Status::Open)
        } else if str_eq(s, "FILLED") {
            Some(Status::Filled)
        } else if str_eq(s, "CANCELLED") {
            Some(Status::Cancelled)
        } else if str_eq(s, "EXPIRED") {
            Some(Status::Expired)
        } else if str_eq(s, "FAILED") {
            Some(Status::Failed)
        } else if str_eq(s, "UNKNOWN_ORDER_STATUS") {
            Some(Status::UnknownOrderStatus)
        } else {
            None
        }
    }
}

/// How long an order stays eligible.
#[derive(Debug, PartialEq, Eq, Structural, Clone, Copy)]
pub enum TimeInForce {
    UnknownTimeInForce,
    GoodUntilDateTime,
    GoodUntilCancelled,
    ImmediateOrCancel,
    FillOrKill,
}

impl TimeInForce {
    /// The wire name of this value.
    pub open spec fn wire_spec(self) -> Seq<char> {
        match self {
            TimeInForce::UnknownTimeInForce => "UNKNOWN_TIME_IN_FORCE"@,
            TimeInForce::GoodUntilDateTime => "GOOD_UNTIL_DATE_TIME"@,
            TimeInForce::GoodUntilCancelled => "GOOD_UNTIL_CANCELLED"@,
            TimeInForce::ImmediateOrCancel => "IMMEDIATE_OR_CANCEL"@,
            TimeInForce::FillOrKill => "FILL_OR_KILL"@,
        }
    }

    /// Renders this value as its wire name.
    pub fn wire_name(&self) -> (r: &'static str)
        ensures
            r@ == self.wire_spec(),
    {
        match self {
            TimeInForce::UnknownTimeInForce => "UNKNOWN_TIME_IN_FORCE",
            TimeInForce::GoodUntilDateTime => "GOOD_UNTIL_DATE_TIME",
            TimeInForce::GoodUntilCancelled => "GOOD_UNTIL_CANCELLED",
            TimeInForce::ImmediateOrCancel => "IMMEDIATE_OR_CANCEL",
            TimeInForce::FillOrKill => "FILL_OR_KILL",
        }
    }

    /// The value a wire name stands for; `None` for an unknown name.
    pub open spec fn from_wire_spec(s: Seq<char>) -> Option<TimeInForce> {
        if s == "UNKNOWN_TIME_IN_FORCE"@ {
            Some(TimeInForce::UnknownTimeInForce)
        } else if s == "GOOD_UNTIL_DATE_TIME"@ {
            Some(TimeInForce::GoodUntilDateTime)
        } else if s == "GOOD_UNTIL_CANCELLED"@ {
            Some(TimeInForce::GoodUntilCancelled)
        } else if s == "IMMEDIATE_OR_CANCEL"@ {
            Some(TimeInForce::ImmediateOrCancel)
        } else if s == "FILL_OR_KILL"@ {
            Some(TimeInForce::FillOrKill)
        } else {
            None
        }
    }

    /// Reads a wire name.
    pub fn from_wire(s: &str) -> (r: Option<TimeInForce>)
        ensures
            r == Self::from_wire_spec(s@),
    {
        if str_eq(s, "UNKNOWN_TIME_IN_FORCE") {
            Some(TimeInForce::UnknownTimeInForce)
        } else if str_eq(s, "GOOD_UNTIL_DATE_TIME") {
            Some(TimeInForce::GoodUntilDateTime)
        } else if str_eq(s, "GOOD_UNTIL_CANCELLED") {
            Some(TimeInForce::GoodUntilCancelled)
        } else if str_eq(s, "IMMEDIATE_OR_CANCEL") {
            Some(TimeInForce::ImmediateOrCancel)
        } else if str_eq(s, "FILL_OR_KILL") {
            Some(TimeInForce::FillOrKill)
        } else {
            None
        }
    }
}

/// The trigger status of a stop order.
#[derive(Debug, PartialEq, Eq, Structural, Clone, Copy)]
pub enum TriggerStatus {
    UnknownTriggerStatus,
    InvalidOrderType,
    StopPending,
    StopTriggered,
}

impl TriggerStatus {
    /// The wire name of this value.
    pub open spec fn wire_spec(self) -> Seq<char> {
        match self {
            TriggerStatus::UnknownTriggerStatus => "UNKNOWN_TRIGGER_STATUS"@,
            TriggerStatus::InvalidOrderType => "INVALID_ORDER_TYPE"@,
            TriggerStatus::StopPending => "STOP_PENDING"@,
            TriggerStatus::StopTriggered => "STOP_TRIGGERED"@,
        }
    }

    /// Renders this value as its wire name.
    pub fn wire_name(&self) -> (r: &'static str)
        ensures
            r@ == self.wire_spec(),
    {
        match self {
            TriggerStatus::UnknownTriggerStatus => "UNKNOWN_TRIGGER_STATUS",
            TriggerStatus::InvalidOrderType => "INVALID_ORDER_TYPE",
            TriggerStatus::StopPending => "STOP_PENDING",
            TriggerStatus::StopTriggered => "STOP_TRIGGERED",
        }
    }

    /// The value a wire name stands for; `None` for an unknown name.
    pub open spec fn from_wire_spec(s: Seq<char>) -> Option<TriggerStatus> {
        if s == "UNKNOWN_TRIGGER_STATUS"@ {
            Some(TriggerStatus::UnknownTriggerStatus)
        } else if s == "INVALID_ORDER_TYPE"@ {
            Some(TriggerStatus::InvalidOrderType)
        } else if s == "STOP_PENDING"@ {
            Some(TriggerStatus::StopPending)
        } else if s == "STOP_TRIGGERED"@ {
            Some(TriggerStatus::StopTriggered)
        } else {
            None
        }
    }

    /// Reads a wire name.
    pub fn from_wire(s: &str) -> (r: Option<TriggerStatus>)
        ensures
            r == Self::from_wire_spec(s@),
    {
        if str_eq(s, "UNKNOWN_TRIGGER_STATUS") {
            Some(TriggerStatus::UnknownTriggerStatus)
        } else if str_eq(s, "INVALID_ORDER_TYPE") {
            Some(TriggerStatus::InvalidOrderType)
        } else if str_eq(s, "STOP_PENDING") {
            Some(TriggerStatus::StopPending)
        } else if str_eq(s, "STOP_TRIGGERED") {
            Some(TriggerStatus::StopTriggered)
        } else {
            None
        }
    }
}

/// The kind of an order.
#[derive(Debug, PartialEq, Eq, Structural, Clone, Copy)]
pub enum OrderType {
    UnknownOrderType,
    Market,
    Limit,
    Stop,
    StopLimitOrderType,
}

impl OrderType {
    /// The wire name of this value.
    pub open spec fn wire_spec(self) -> Seq<char> {
        match self {
            OrderType::UnknownOrderType => "UNKNOWN_ORDER_TYPE"@,
            OrderType::Market => "MARKET"@,
            OrderType::Limit => "LIMIT"@,
            OrderType::Stop => "STOP"@,
            OrderType::StopLimitOrderType => "STOP_LIMIT"@,
        }
    }

    /// Renders this value as its wire name.
    pub fn wire_name(&self) -> (r: &'static str)
        ensures
            r@ == self.wire_spec(),
    {
        match self {
            OrderType::UnknownOrderType => "UNKNOWN_ORDER_TYPE",
            OrderType::Market => "MARKET",
            OrderType::Limit => "LIMIT",
            OrderType::Stop => "STOP",
            OrderType::StopLimitOrderType => "STOP_LIMIT",
        }
    }

    /// The value a wire name stands for; `None` for an unknown name.
    pub open spec fn from_wire_spec(s: Seq<char>) -> Option<OrderType> {
        if s == "UNKNOWN_ORDER_TYPE"@ {
            Some(OrderType::UnknownOrderType)
        } else if s == "MARKET"@ {
            Some(OrderType::Market)
        } else if s == "LIMIT"@ {
            Some(OrderType::Limit)
        } else if s == "STOP"@ {
            Some(OrderType::Stop)
        } else if s == "STOP_LIMIT"@ {
            Some(OrderType::StopLimitOrderType)
        } else {
            None
        }
    }

    /// Reads a wire name.
    pub fn from_wire(s: &str) -> (r: Option<OrderType>)
        ensures
            r == Self::from_wire_spec(s@),
    {
        if str_eq(s, "UNKNOWN_ORDER_TYPE") {
            Some(OrderType::UnknownOrderType)
        } else if str_eq(s, "MARKET") {
            Some(OrderType::Market)
        } else if str_eq(s, "LIMIT") {
            Some(OrderType::Limit)
        } else if str_eq(s, "STOP") {
            Some(OrderType::Stop)
        } else if str_eq(s, "STOP_LIMIT") {
            Some(OrderType::StopLimitOrderType)
        } else {
            None
        }
    }
}

/// Why an order was rejected.
#[derive(Debug, PartialEq, Eq, Structural, Clone, Copy)]
pub enum RejectReason {
    RejectReasonUnspecified,
}

impl RejectReason {
    /// The wire name of this value.
    pub open spec fn wire_spec(self) -> Seq<char> {
        match self {
            RejectReason::RejectReasonUnspecified => "REJECT_REASON_UNSPECIFIED"@,
        }
    }

    /// Renders this value as its wire name.
    pub fn wire_name(&self) -> (r: &'static str)
        ensures
            r@ == self.wire_spec(),
    {
        match self {
            RejectReason::RejectReasonUnspecified => "REJECT_REASON_UNSPECIFIED",
        }
    }

    /// The value a wire name stands for; `None` for an unknown name.
    pub open spec fn from_wire_spec(s: Seq<char>) -> Option<RejectReason> {
        if s == "REJECT_REASON_UNSPECIFIED"@ {
            Some(RejectReason::RejectReasonUnspecified)
        } else {
            None
        }
    }

    /// Reads a wire name.
    pub fn from_wire(s: &str) -> (r: Option<RejectReason>)
        ensures
            r == Self::from_wire_spec(s@),
    {
        if str_eq(s, "REJECT_REASON_UNSPECIFIED") {
            Some(RejectReason::RejectReasonUnspecified)
        } else {
            None
        }
    }
}

/// Which surface an order was placed from.
#[derive(Debug, PartialEq, Eq, Structural, Clone, Copy)]
pub enum OrderPlacementSource {
    RetailSimple,
    RetailAdvanced,
}

impl OrderPlacementSource {
    /// The wire name of this value.
    pub open spec fn wire_spec(self) -> Seq<char> {
        match self {
            OrderPlacementSource::RetailSimple => "RETAIL_SIMPLE"@,
            OrderPlacementSource::RetailAdvanced => "RETAIL_ADVANCED"@,
        }
    }

    /// Renders this value as its wire name.
    pub fn wire_name(&self) -> (r: &'static str)
        ensures
            r@ == self.wire_spec(),
    {
        match self {
            OrderPlacementSource::RetailSimple => "RETAIL_SIMPLE",
            OrderPlacementSource::RetailAdvanced => "RETAIL_ADVANCED",
        }
    }

    /// The value a wire name stands for; `None` for an unknown name.
    pub open spec fn from_wire_spec(s: Seq<char>) -> Option<OrderPlacementSource> {
        if s == "RETAIL_SIMPLE"@ {
            Some(OrderPlacementSource::RetailSimple)
        } else if s == "RETAIL_ADVANCED"@ {
            Some(OrderPlacementSource::RetailAdvanced)
        } else {
            None
        }
    }

    /// Reads a wire name.
    pub fn from_wire(s: &str) -> (r: Option<OrderPlacementSource>)
        ensures
            r == Self::from_wire_spec(s@),
    {
        if str_eq(s, "RETAIL_SIMPLE") {
            Some(OrderPlacementSource::RetailSimple)
        } else if str_eq(s, "RETAIL_ADVANCED") {
            Some(OrderPlacementSource::RetailAdvanced)
        } else {
            None
        }
    }
}

/// Whether a fill made or took liquidity.
#[derive(Debug, PartialEq, Eq, Structural, Clone, Copy)]
pub enum LiquidityIndicator {
    UnknownLiquidityIndicator,
    Maker,
    Taker,
}

impl LiquidityIndicator {
    /// The wire name of this value.
    pub open spec fn wire_spec(self) -> Seq<char> {
        match self {
            LiquidityIndicator::UnknownLiquidityIndicator => "UNKNOWN_LIQUIDITY_INDICATOR"@,
            LiquidityIndicator::Maker => "MAKER"@,
            LiquidityIndicator::Taker => "TAKER"@,
        }
    }

    /// Renders this value as its wire name.
    pub fn wire_name(&self) -> (r: &'static str)
        ensures
            r@ == self.wire_spec(),
    {
        match self {
            LiquidityIndicator::UnknownLiquidityIndicator => "UNKNOWN_LIQUIDITY_INDICATOR",
            LiquidityIndicator::Maker => "MAKER",
            LiquidityIndicator::Taker => "TAKER",
        }
    }

    /// The value a wire name stands for; `None` for an unknown name.
    pub open spec fn from_wire_spec(s: Seq<char>) -> Option<LiquidityIndicator> {
        if s == "UNKNOWN_LIQUIDITY_INDICATOR"@ {
            Some(LiquidityIndicator::UnknownLiquidityIndicator)
        } else if s == "MAKER"@ {
            Some(LiquidityIndicator::Maker)
        } else if s == "TAKER"@ {
            Some(LiquidityIndicator::Taker)
        } else {
            None
        }
    }

    /// Reads a wire name.
    pub fn from_wire(s: &str) -> (r: Option<LiquidityIndicator>)
        ensures
            r == Self::from_wire_spec(s@),
    {
        if str_eq(s, "UNKNOWN_LIQUIDITY_INDICATOR") {
            Some(LiquidityIndicator::UnknownLiquidityIndicator)
        } else if str_eq(s, "MAKER") {
            Some(LiquidityIndicator::Maker)
        } else if str_eq(s, "TAKER") {
            Some(LiquidityIndicator::Taker)
        } else {
            None
        }
    }
}

/// Why creating an order failed.
#[derive(Debug, PartialEq, Eq, Structural, Clone, Copy)]
pub enum CreateOrderFailureReason {
    UnknownFailureReason,
    UnsupportedOrderConfiguration,
    InvalidSide,
    InvalidProductId,
    InvalidSizePrecision,
    InvalidPricePrecision,
    InsufficientFund,
    InvalidLedgerBalance,
    OrderEntryDisabled,
    IneligiblePair,
    InvalidLimitPricePostOnly,
    InvalidLimitPrice,
    InvalidNoLiquidity,
    InvalidRequest,
    CommanderRejectedNewOrder,
    InsufficientFunds,
}

impl CreateOrderFailureReason {
    /// The wire name of this value.
    pub open spec fn wire_spec(self) -> Seq<char> {
        match self {
            CreateOrderFailureReason::UnknownFailureReason => "UNKNOWN_FAILURE_REASON"@,
            CreateOrderFailureReason::UnsupportedOrderConfiguration => "UNSUPPORTED_ORDER_CONFIGURATION"@,
            CreateOrderFailureReason::InvalidSide => "INVALID_SIDE"@,
            CreateOrderFailureReason::InvalidProductId => "INVALID_PRODUCT_ID"@,
            CreateOrderFailureReason::InvalidSizePrecision => "INVALID_SIZE_PRECISION"@,
            CreateOrderFailureReason::InvalidPricePrecision => "INVALID_PRICE_PRECISION"@,
            CreateOrderFailureReason::InsufficientFund => "INSUFFICIENT_FUND"@,
            CreateOrderFailureReason::InvalidLedgerBalance => "INVALID_LEDGER_BALANCE"@,
            CreateOrderFailureReason::OrderEntryDisabled => "ORDER_ENTRY_DISABLED"@,
            CreateOrderFailureReason::IneligiblePair => "INELIGIBLE_PAIR"@,
            CreateOrderFailureReason::InvalidLimitPricePostOnly => "INVALID_LIMIT_PRICE_POST_ONLY"@,
            CreateOrderFailureReason::InvalidLimitPrice => "INVALID_LIMIT_PRICE"@,
            CreateOrderFailureReason::InvalidNoLiquidity => "INVALID_NO_LIQUIDITY"@,
            CreateOrderFailureReason::InvalidRequest => "INVALID_REQUEST"@,
            CreateOrderFailureReason::CommanderRejectedNewOrder => "COMMANDER_REJECTED_NEW_ORDER"@,
            CreateOrderFailureReason::InsufficientFunds => "INSUFFICIENT_FUNDS"@,
        }
    }

    /// Renders this value as its wire name.
    pub fn wire_name(&self) -> (r: &'static str)
        ensures
            r@ == self.wire_spec(),
    {
        match self {
            CreateOrderFailureReason::UnknownFailureReason => "UNKNOWN_FAILURE_REASON",
            CreateOrderFailureReason::UnsupportedOrderConfiguration => "UNSUPPORTED_ORDER_CONFIGURATION",
            CreateOrderFailureReason::InvalidSide => "INVALID_SIDE",
            CreateOrderFailureReason::InvalidProductId => "INVALID_PRODUCT_ID",
            CreateOrderFailureReason::InvalidSizePrecision => "INVALID_SIZE_PRECISION",
            CreateOrderFailureReason::InvalidPricePrecision => "INVALID_PRICE_PRECISION",
            CreateOrderFailureReason::InsufficientFund => "INSUFFICIENT_FUND",
            CreateOrderFailureReason::InvalidLedgerBalance => "INVALID_LEDGER_BALANCE",
            CreateOrderFailureReason::OrderEntryDisabled => "ORDER_ENTRY_DISABLED",
            CreateOrderFailureReason::IneligiblePair => "INELIGIBLE_PAIR",
            CreateOrderFailureReason::InvalidLimitPricePostOnly => "INVALID_LIMIT_PRICE_POST_ONLY",
            CreateOrderFailureReason::InvalidLimitPrice => "INVALID_LIMIT_PRICE",
            CreateOrderFailureReason::InvalidNoLiquidity => "INVALID_NO_LIQUIDITY",
            CreateOrderFailureReason::InvalidRequest => "INVALID_REQUEST",
            CreateOrderFailureReason::CommanderRejectedNewOrder => "COMMANDER_REJECTED_NEW_ORDER",
            CreateOrderFailureReason::InsufficientFunds => "INSUFFICIENT_FUNDS",
        }
    }

    /// The value a wire name stands for; `None` for an unknown name.
    pub open spec fn from_wire_spec(s: Seq<char>) -> Option<CreateOrderFailureReason> {
        if s == "UNKNOWN_FAILURE_REASON"@ {
            Some(CreateOrderFailureReason::UnknownFailureReason)
        } else if s == "UNSUPPORTED_ORDER_CONFIGURATION"@ {
            Some(CreateOrderFailureReason::UnsupportedOrderConfiguration)
        } else if s == "INVALID_SIDE"@ {
            Some(CreateOrderFailureReason::InvalidSide)
        } else if s == "INVALID_PRODUCT_ID"@ {
            Some(CreateOrderFailureReason::InvalidProductId)
        } else if s == "INVALID_SIZE_PRECISION"@ {
            Some(CreateOrderFailureReason::InvalidSizePrecision)
        } else if s == "INVALID_PRICE_PRECISION"@ {
            Some(CreateOrderFailureReason::InvalidPricePrecision)
        } else if s == "INSUFFICIENT_FUND"@ {
            Some(CreateOrderFailureReason::InsufficientFund)
        } else if s == "INVALID_LEDGER_BALANCE"@ {
            Some(CreateOrderFailureReason::InvalidLedgerBalance)
        } else if s == "ORDER_ENTRY_DISABLED"@ {
            Some(CreateOrderFailureReason::OrderEntryDisabled)
        } else if s == "INELIGIBLE_PAIR"@ {
            Some(CreateOrderFailureReason::IneligiblePair)
        } else if s == "INVALID_LIMIT_PRICE_POST_ONLY"@ {
            Some(CreateOrderFailureReason::InvalidLimitPricePostOnly)
        } else if s == "INVALID_LIMIT_PRICE"@ {
            Some(CreateOrderFailureReason::InvalidLimitPrice)
        } else if s == "INVALID_NO_LIQUIDITY"@ {
            Some(CreateOrderFailureReason::InvalidNoLiquidity)
        } else if s == "INVALID_REQUEST"@ {
            Some(CreateOrderFailureReason::InvalidRequest)
        } else if s == "COMMANDER_REJECTED_NEW_ORDER"@ {
            Some(CreateOrderFailureReason::CommanderRejectedNewOrder)
        } else if s == "INSUFFICIENT_FUNDS"@ {
            Some(CreateOrderFailureReason::InsufficientFunds)
        } else {
            None
        }
    }

    /// Reads a wire name.
    pub fn from_wire(s: &str) -> (r: Option<CreateOrderFailureReason>)
        ensures
            r == Self::from_wire_spec(s@),
    {
        if str_eq(s, "UNKNOWN_FAILURE_REASON") {
            Some(CreateOrderFailureReason::UnknownFailureReason)
        } else if str_eq(s, "UNSUPPORTED_ORDER_CONFIGURATION") {
            Some(CreateOrderFailureReason::UnsupportedOrderConfiguration)
        } else if str_eq(s, "INVALID_SIDE") {
            Some(CreateOrderFailureReason::InvalidSide)
        } else if str_eq(s, "INVALID_PRODUCT_ID") {
            Some(CreateOrderFailureReason::InvalidProductId)
        } else if str_eq(s, "INVALID_SIZE_PRECISION") {
            Some(CreateOrderFailureReason::InvalidSizePrecision)
        } else if str_eq(s, "INVALID_PRICE_PRECISION") {
            Some(CreateOrderFailureReason::InvalidPricePrecision)
        } else if str_eq(s, "INSUFFICIENT_FUND") {
            Some(CreateOrderFailureReason::InsufficientFund)
        } else if str_eq(s, "INVALID_LEDGER_BALANCE") {
            Some(CreateOrderFailureReason::InvalidLedgerBalance)
        } else if str_eq(s, "ORDER_ENTRY_DISABLED") {
            Some(CreateOrderFailureReason::OrderEntryDisabled)
        } else if str_eq(s, "INELIGIBLE_PAIR") {
            Some(CreateOrderFailureReason::IneligiblePair)
        } else if str_eq(s, "INVALID_LIMIT_PRICE_POST_ONLY") {
            Some(CreateOrderFailureReason::InvalidLimitPricePostOnly)
        } else if str_eq(s, "INVALID_LIMIT_PRICE") {
            Some(CreateOrderFailureReason::InvalidLimitPrice)
        } else if str_eq(s, "INVALID_NO_LIQUIDITY") {
            Some(CreateOrderFailureReason::InvalidNoLiquidity)
        } else if str_eq(s, "INVALID_REQUEST") {
            Some(CreateOrderFailureReason::InvalidRequest)
        } else if str_eq(s, "COMMANDER_REJECTED_NEW_ORDER") {
            Some(CreateOrderFailureReason::CommanderRejectedNewOrder)
        } else if str_eq(s, "INSUFFICIENT_FUNDS") {
            Some(CreateOrderFailureReason::InsufficientFunds)
        } else {
            None
        }
    }
}

/// Why previewing an order failed.
#[derive(Debug, PartialEq, Eq, Structural, Clone, Copy)]
pub enum PreviewCreateOrderFailureReason {
    UnknownPreviewFailureReason,
    PreviewMissingCommissionRate,
    PreviewInvalidSide,
    PreviewInvalidOrderConfig,
    PreviewInvalidProductId,
    PreviewInvalidSizePrecision,
    PreviewInvalidPricePrecision,
    PreviewMissingProductPriceBook,
    PreviewInvalidLedgerBalance,
    PreviewInsufficientLedgerBalance,
    PreviewInvalidLimitPricePostOnly,
    PreviewInvalidLimitPrice,
    PreviewInvalidNoLiquidity,
    PreviewInsufficientFund,
    PreviewInvalidCommissionConfiguration,
    PreviewInvalidStopPrice,
    PreviewInvalidBaseSizeTooLarge,
    PreviewInvalidBaseSizeTooSmall,
    PreviewInvalidQuoteSizePrecision,
    PreviewInvalidQuoteSizeTooLarge,
    PreviewInvalidPriceTooLarge,
    PreviewInvalidQuoteSizeTooSmall,
    PreviewInsufficientFundsForFutures,
    PreviewBreachedPriceLimit,
    PreviewBreachedAccountPositionLimit,
    PreviewBreachedCompanyPositionLimit,
    PreviewInvalidMarginHealth,
    PreviewRiskProxyFailure,
    PreviewUntradableFcmAccountStatus,
}

impl PreviewCreateOrderFailureReason {
    /// The wire name of this value.
    pub open spec fn wire_spec(self) -> Seq<char> {
        match self {
            PreviewCreateOrderFailureReason::UnknownPreviewFailureReason => "UNKNOWN_PREVIEW_FAILURE_REASON"@,
            PreviewCreateOrderFailureReason::PreviewMissingCommissionRate => "PREVIEW_MISSING_COMMISSION_RATE"@,
            PreviewCreateOrderFailureReason::PreviewInvalidSide => "PREVIEW_INVALID_SIDE"@,
            PreviewCreateOrderFailureReason::PreviewInvalidOrderConfig => "PREVIEW_INVALID_ORDER_CONFIG"@,
            PreviewCreateOrderFailureReason::PreviewInvalidProductId => "PREVIEW_INVALID_PRODUCT_ID"@,
            PreviewCreateOrderFailureReason::PreviewInvalidSizePrecision => "PREVIEW_INVALID_SIZE_PRECISION"@,
            PreviewCreateOrderFailureReason::PreviewInvalidPricePrecision => "PREVIEW_INVALID_PRICE_PRECISION"@,
            PreviewCreateOrderFailureReason::PreviewMissingProductPriceBook => "PREVIEW_MISSING_PRODUCT_PRICE_BOOK"@,
            PreviewCreateOrderFailureReason::PreviewInvalidLedgerBalance => "PREVIEW_INVALID_LEDGER_BALANCE"@,
            PreviewCreateOrderFailureReason::PreviewInsufficientLedgerBalance => "PREVIEW_INSUFFICIENT_LEDGER_BALANCE"@,
            PreviewCreateOrderFailureReason::PreviewInvalidLimitPricePostOnly => "PREVIEW_INVALID_LIMIT_PRICE_POST_ONLY"@,
            PreviewCreateOrderFailureReason::PreviewInvalidLimitPrice => "PREVIEW_INVALID_LIMIT_PRICE"@,
            PreviewCreateOrderFailureReason::PreviewInvalidNoLiquidity => "PREVIEW_INVALID_NO_LIQUIDITY"@,
            PreviewCreateOrderFailureReason::PreviewInsufficientFund => "PREVIEW_INSUFFICIENT_FUND"@,
            PreviewCreateOrderFailureReason::PreviewInvalidCommissionConfiguration => "PREVIEW_INVALID_COMMISSION_CONFIGURATION"@,
            PreviewCreateOrderFailureReason::PreviewInvalidStopPrice => "PREVIEW_INVALID_STOP_PRICE"@,
            PreviewCreateOrderFailureReason::PreviewInvalidBaseSizeTooLarge => "PREVIEW_INVALID_BASE_SIZE_TOO_LARGE"@,
            PreviewCreateOrderFailureReason::PreviewInvalidBaseSizeTooSmall => "PREVIEW_INVALID_BASE_SIZE_TOO_SMALL"@,
            PreviewCreateOrderFailureReason::PreviewInvalidQuoteSizePrecision => "PREVIEW_INVALID_QUOTE_SIZE_PRECISION"@,
            PreviewCreateOrderFailureReason::PreviewInvalidQuoteSizeTooLarge => "PREVIEW_INVALID_QUOTE_SIZE_TOO_LARGE"@,
            PreviewCreateOrderFailureReason::PreviewInvalidPriceTooLarge => "PREVIEW_INVALID_PRICE_TOO_LARGE"@,
            PreviewCreateOrderFailureReason::PreviewInvalidQuoteSizeTooSmall => "PREVIEW_INVALID_QUOTE_SIZE_TOO_SMALL"@,
            PreviewCreateOrderFailureReason::PreviewInsufficientFundsForFutures => "PREVIEW_INSUFFICIENT_FUNDS_FOR_FUTURES"@,
            PreviewCreateOrderFailureReason::PreviewBreachedPriceLimit => "PREVIEW_BREACHED_PRICE_LIMIT"@,
            PreviewCreateOrderFailureReason::PreviewBreachedAccountPositionLimit => "PREVIEW_BREACHED_ACCOUNT_POSITION_LIMIT"@,
            PreviewCreateOrderFailureReason::PreviewBreachedCompanyPositionLimit => "PREVIEW_BREACHED_COMPANY_POSITION_LIMIT"@,
            PreviewCreateOrderFailureReason::PreviewInvalidMarginHealth => "PREVIEW_INVALID_MARGIN_HEALTH"@,
            PreviewCreateOrderFailureReason::PreviewRiskProxyFailure => "PREVIEW_RISK_PROXY_FAILURE"@,
            PreviewCreateOrderFailureReason::PreviewUntradableFcmAccountStatus => "PREVIEW_UNTRADABLE_FCM_ACCOUNT_STATUS"@,
        }
    }

    /// Renders this value as its wire name.
    pub fn wire_name(&self) -> (r: &'static str)
        ensures
            r@ == self.wire_spec(),
    {
        match self {
            PreviewCreateOrderFailureReason::UnknownPreviewFailureReason => "UNKNOWN_PREVIEW_FAILURE_REASON",
            PreviewCreateOrderFailureReason::PreviewMissingCommissionRate => "PREVIEW_MISSING_COMMISSION_RATE",
            PreviewCreateOrderFailureReason::PreviewInvalidSide => "PREVIEW_INVALID_SIDE",
            PreviewCreateOrderFailureReason::PreviewInvalidOrderConfig => "PREVIEW_INVALID_ORDER_CONFIG",
            PreviewCreateOrderFailureReason::PreviewInvalidProductId => "PREVIEW_INVALID_PRODUCT_ID",
            PreviewCreateOrderFailureReason::PreviewInvalidSizePrecision => "PREVIEW_INVALID_SIZE_PRECISION",
            PreviewCreateOrderFailureReason::PreviewInvalidPricePrecision => "PREVIEW_INVALID_PRICE_PRECISION",
            PreviewCreateOrderFailureReason::PreviewMissingProductPriceBook => "PREVIEW_MISSING_PRODUCT_PRICE_BOOK",
            PreviewCreateOrderFailureReason::PreviewInvalidLedgerBalance => "PREVIEW_INVALID_LEDGER_BALANCE",
            PreviewCreateOrderFailureReason::PreviewInsufficientLedgerBalance => "PREVIEW_INSUFFICIENT_LEDGER_BALANCE",
            PreviewCreateOrderFailureReason::PreviewInvalidLimitPricePostOnly => "PREVIEW_INVALID_LIMIT_PRICE_POST_ONLY",
            PreviewCreateOrderFailureReason::PreviewInvalidLimitPrice => "PREVIEW_INVALID_LIMIT_PRICE",
            PreviewCreateOrderFailureReason::PreviewInvalidNoLiquidity => "PREVIEW_INVALID_NO_LIQUIDITY",
            PreviewCreateOrderFailureReason::PreviewInsufficientFund => "PREVIEW_INSUFFICIENT_FUND",
            PreviewCreateOrderFailureReason::PreviewInvalidCommissionConfiguration => "PREVIEW_INVALID_COMMISSION_CONFIGURATION",
            PreviewCreateOrderFailureReason::PreviewInvalidStopPrice => "PREVIEW_INVALID_STOP_PRICE",
            PreviewCreateOrderFailureReason::PreviewInvalidBaseSizeTooLarge => "PREVIEW_INVALID_BASE_SIZE_TOO_LARGE",
            PreviewCreateOrderFailureReason::PreviewInvalidBaseSizeTooSmall => "PREVIEW_INVALID_BASE_SIZE_TOO_SMALL",
            PreviewCreateOrderFailureReason::PreviewInvalidQuoteSizePrecision => "PREVIEW_INVALID_QUOTE_SIZE_PRECISION",
            PreviewCreateOrderFailureReason::PreviewInvalidQuoteSizeTooLarge => "PREVIEW_INVALID_QUOTE_SIZE_TOO_LARGE",
            PreviewCreateOrderFailureReason::PreviewInvalidPriceTooLarge => "PREVIEW_INVALID_PRICE_TOO_LARGE",
            PreviewCreateOrderFailureReason::PreviewInvalidQuoteSizeTooSmall => "PREVIEW_INVALID_QUOTE_SIZE_TOO_SMALL",
            PreviewCreateOrderFailureReason::PreviewInsufficientFundsForFutures => "PREVIEW_INSUFFICIENT_FUNDS_FOR_FUTURES",
            PreviewCreateOrderFailureReason::PreviewBreachedPriceLimit => "PREVIEW_BREACHED_PRICE_LIMIT",
            PreviewCreateOrderFailureReason::PreviewBreachedAccountPositionLimit => "PREVIEW_BREACHED_ACCOUNT_POSITION_LIMIT",
            PreviewCreateOrderFailureReason::PreviewBreachedCompanyPositionLimit => "PREVIEW_BREACHED_COMPANY_POSITION_LIMIT",
            PreviewCreateOrderFailureReason::PreviewInvalidMarginHealth => "PREVIEW_INVALID_MARGIN_HEALTH",
            PreviewCreateOrderFailureReason::PreviewRiskProxyFailure => "PREVIEW_RISK_PROXY_FAILURE",
            PreviewCreateOrderFailureReason::PreviewUntradableFcmAccountStatus => "PREVIEW_UNTRADABLE_FCM_ACCOUNT_STATUS",
        }
    }

    /// The value a wire name stands for; `None` for an unknown name.
    pub open spec fn from_wire_spec(s: Seq<char>) -> Option<PreviewCreateOrderFailureReason> {
        if s == "UNKNOWN_PREVIEW_FAILURE_REASON"@ {
            Some(PreviewCreateOrderFailureReason::UnknownPreviewFailureReason)
        } else if s == "PREVIEW_MISSING_COMMISSION_RATE"@ {
            Some(PreviewCreateOrderFailureReason::PreviewMissingCommissionRate)
        } else if s == "PREVIEW_INVALID_SIDE"@ {
            Some(PreviewCreateOrderFailureReason::PreviewInvalidSide)
        } else if s == "PREVIEW_INVALID_ORDER_CONFIG"@ {
            Some(PreviewCreateOrderFailureReason::PreviewInvalidOrderConfig)
        } else if s == "PREVIEW_INVALID_PRODUCT_ID"@ {
            Some(PreviewCreateOrderFailureReason::PreviewInvalidProductId)
        } else if s == "PREVIEW_INVALID_SIZE_PRECISION"@ {
            Some(PreviewCreateOrderFailureReason::PreviewInvalidSizePrecision)
        } else if s == "PREVIEW_INVALID_PRICE_PRECISION"@ {
            Some(PreviewCreateOrderFailureReason::PreviewInvalidPricePrecision)
        } else if s == "PREVIEW_MISSING_PRODUCT_PRICE_BOOK"@ {
            Some(PreviewCreateOrderFailureReason::PreviewMissingProductPriceBook)
        } else if s == "PREVIEW_INVALID_LEDGER_BALANCE"@ {
            Some(PreviewCreateOrderFailureReason::PreviewInvalidLedgerBalance)
        } else if s == "PREVIEW_INSUFFICIENT_LEDGER_BALANCE"@ {
            Some(PreviewCreateOrderFailureReason::PreviewInsufficientLedgerBalance)
        } else if s == "PREVIEW_INVALID_LIMIT_PRICE_POST_ONLY"@ {
            Some(PreviewCreateOrderFailureReason::PreviewInvalidLimitPricePostOnly)
        } else if s == "PREVIEW_INVALID_LIMIT_PRICE"@ {
            Some(PreviewCreateOrderFailureReason::PreviewInvalidLimitPrice)
        } else if s == "PREVIEW_INVALID_NO_LIQUIDITY"@ {
            Some(PreviewCreateOrderFailureReason::PreviewInvalidNoLiquidity)
        } else if s == "PREVIEW_INSUFFICIENT_FUND"@ {
            Some(PreviewCreateOrderFailureReason::PreviewInsufficientFund)
        } else if s == "PREVIEW_INVALID_COMMISSION_CONFIGURATION"@ {
            Some(PreviewCreateOrderFailureReason::PreviewInvalidCommissionConfiguration)
        } else if s == "PREVIEW_INVALID_STOP_PRICE"@ {
            Some(PreviewCreateOrderFailureReason::PreviewInvalidStopPrice)
        } else if s == "PREVIEW_INVALID_BASE_SIZE_TOO_LARGE"@ {
            Some(PreviewCreateOrderFailureReason::PreviewInvalidBaseSizeTooLarge)
        } else if s == "PREVIEW_INVALID_BASE_SIZE_TOO_SMALL"@ {
            Some(PreviewCreateOrderFailureReason::PreviewInvalidBaseSizeTooSmall)
        } else if s == "PREVIEW_INVALID_QUOTE_SIZE_PRECISION"@ {
            Some(PreviewCreateOrderFailureReason::PreviewInvalidQuoteSizePrecision)
        } else if s == "PREVIEW_INVALID_QUOTE_SIZE_TOO_LARGE"@ {
            Some(PreviewCreateOrderFailureReason::PreviewInvalidQuoteSizeTooLarge)
        } else if s == "PREVIEW_INVALID_PRICE_TOO_LARGE"@ {
            Some(PreviewCreateOrderFailureReason::PreviewInvalidPriceTooLarge)
        } else if s == "PREVIEW_INVALID_QUOTE_SIZE_TOO_SMALL"@ {
            Some(PreviewCreateOrderFailureReason::PreviewInvalidQuoteSizeTooSmall)
        } else if s == "PREVIEW_INSUFFICIENT_FUNDS_FOR_FUTURES"@ {
            Some(PreviewCreateOrderFailureReason::PreviewInsufficientFundsForFutures)
        } else if s == "PREVIEW_BREACHED_PRICE_LIMIT"@ {
            Some(PreviewCreateOrderFailureReason::PreviewBreachedPriceLimit)
        } else if s == "PREVIEW_BREACHED_ACCOUNT_POSITION_LIMIT"@ {
            Some(PreviewCreateOrderFailureReason::PreviewBreachedAccountPositionLimit)
        } else if s == "PREVIEW_BREACHED_COMPANY_POSITION_LIMIT"@ {
            Some(PreviewCreateOrderFailureReason::PreviewBreachedCompanyPositionLimit)
        } else if s == "PREVIEW_INVALID_MARGIN_HEALTH"@ {
            Some(PreviewCreateOrderFailureReason::PreviewInvalidMarginHealth)
        } else if s == "PREVIEW_RISK_PROXY_FAILURE"@ {
            Some(PreviewCreateOrderFailureReason::PreviewRiskProxyFailure)
        } else if s == "PREVIEW_UNTRADABLE_FCM_ACCOUNT_STATUS"@ {
            Some(PreviewCreateOrderFailureReason::PreviewUntradableFcmAccountStatus)
        } else {
            None
        }
    }

    /// Reads a wire name.
    pub fn from_wire(s: &str) -> (r: Option<PreviewCreateOrderFailureReason>)
        ensures
            r == Self::from_wire_spec(s@),
    {
        if str_eq(s, "UNKNOWN_PREVIEW_FAILURE_REASON") {
            Some(PreviewCreateOrderFailureReason::UnknownPreviewFailureReason)
        } else if str_eq(s, "PREVIEW_MISSING_COMMISSION_RATE") {
            Some(PreviewCreateOrderFailureReason::PreviewMissingCommissionRate)
        } else if str_eq(s, "PREVIEW_INVALID_SIDE") {
            Some(PreviewCreateOrderFailureReason::PreviewInvalidSide)
        } else if str_eq(s, "PREVIEW_INVALID_ORDER_CONFIG") {
            Some(PreviewCreateOrderFailureReason::PreviewInvalidOrderConfig)
        } else if str_eq(s, "PREVIEW_INVALID_PRODUCT_ID") {
            Some(PreviewCreateOrderFailureReason::PreviewInvalidProductId)
        } else if str_eq(s, "PREVIEW_INVALID_SIZE_PRECISION") {
            Some(PreviewCreateOrderFailureReason::PreviewInvalidSizePrecision)
        } else if str_eq(s, "PREVIEW_INVALID_PRICE_PRECISION") {
            Some(PreviewCreateOrderFailureReason::PreviewInvalidPricePrecision)
        } else if str_eq(s, "PREVIEW_MISSING_PRODUCT_PRICE_BOOK") {
            Some(PreviewCreateOrderFailureReason::PreviewMissingProductPriceBook)
        } else if str_eq(s, "PREVIEW_INVALID_LEDGER_BALANCE") {
            Some(PreviewCreateOrderFailureReason::PreviewInvalidLedgerBalance)
        } else if str_eq(s, "PREVIEW_INSUFFICIENT_LEDGER_BALANCE") {
            Some(PreviewCreateOrderFailureReason::PreviewInsufficientLedgerBalance)
        } else if str_eq(s, "PREVIEW_INVALID_LIMIT_PRICE_POST_ONLY") {
            Some(PreviewCreateOrderFailureReason::PreviewInvalidLimitPricePostOnly)
        } else if str_eq(s, "PREVIEW_INVALID_LIMIT_PRICE") {
            Some(PreviewCreateOrderFailureReason::PreviewInvalidLimitPrice)
        } else if str_eq(s, "PREVIEW_INVALID_NO_LIQUIDITY") {
            Some(PreviewCreateOrderFailureReason::PreviewInvalidNoLiquidity)
        } else if str_eq(s, "PREVIEW_INSUFFICIENT_FUND") {
            Some(PreviewCreateOrderFailureReason::PreviewInsufficientFund)
        } else if str_eq(s, "PREVIEW_INVALID_COMMISSION_CONFIGURATION") {
            Some(PreviewCreateOrderFailureReason::PreviewInvalidCommissionConfiguration)
        } else if str_eq(s, "PREVIEW_INVALID_STOP_PRICE") {
            Some(PreviewCreateOrderFailureReason::PreviewInvalidStopPrice)
        } else if str_eq(s, "PREVIEW_INVALID_BASE_SIZE_TOO_LARGE") {
            Some(PreviewCreateOrderFailureReason::PreviewInvalidBaseSizeTooLarge)
        } else if str_eq(s, "PREVIEW_INVALID_BASE_SIZE_TOO_SMALL") {
            Some(PreviewCreateOrderFailureReason::PreviewInvalidBaseSizeTooSmall)
        } else if str_eq(s, "PREVIEW_INVALID_QUOTE_SIZE_PRECISION") {
            Some(PreviewCreateOrderFailureReason::PreviewInvalidQuoteSizePrecision)
        } else if str_eq(s, "PREVIEW_INVALID_QUOTE_SIZE_TOO_LARGE") {
            Some(PreviewCreateOrderFailureReason::PreviewInvalidQuoteSizeTooLarge)
        } else if str_eq(s, "PREVIEW_INVALID_PRICE_TOO_LARGE") {
            Some(PreviewCreateOrderFailureReason::PreviewInvalidPriceTooLarge)
        } else if str_eq(s, "PREVIEW_INVALID_QUOTE_SIZE_TOO_SMALL") {
            Some(PreviewCreateOrderFailureReason::PreviewInvalidQuoteSizeTooSmall)
        } else if str_eq(s, "PREVIEW_INSUFFICIENT_FUNDS_FOR_FUTURES") {
            Some(PreviewCreateOrderFailureReason::PreviewInsufficientFundsForFutures)
        } else if str_eq(s, "PREVIEW_BREACHED_PRICE_LIMIT") {
            Some(PreviewCreateOrderFailureReason::PreviewBreachedPriceLimit)
        } else if str_eq(s, "PREVIEW_BREACHED_ACCOUNT_POSITION_LIMIT") {
            Some(PreviewCreateOrderFailureReason::PreviewBreachedAccountPositionLimit)
        } else if str_eq(s, "PREVIEW_BREACHED_COMPANY_POSITION_LIMIT") {
            Some(PreviewCreateOrderFailureReason::PreviewBreachedCompanyPositionLimit)
        } else if str_eq(s, "PREVIEW_INVALID_MARGIN_HEALTH") {
            Some(PreviewCreateOrderFailureReason::PreviewInvalidMarginHealth)
        } else if str_eq(s, "PREVIEW_RISK_PROXY_FAILURE") {
            Some(PreviewCreateOrderFailureReason::PreviewRiskProxyFailure)
        } else if str_eq(s, "PREVIEW_UNTRADABLE_FCM_ACCOUNT_STATUS") {
            Some(PreviewCreateOrderFailureReason::PreviewUntradableFcmAccountStatus)
        } else {
            None
        }
    }
}

/// Why cancelling an order failed.
#[derive(Debug, PartialEq, Eq, Structural, Clone, Copy)]
pub enum CancelOrderFailureReason {
    UnknownCancelFailureReason,
    InvalidCancelRequest,
    UnknownCancelOrder,
    CommanderRejectedCancelOrder,
    DuplicateCancelRequest,
}

impl CancelOrderFailureReason {
    /// The wire name of this value.
    pub open spec fn wire_spec(self) -> Seq<char> {
        match self {
            CancelOrderFailureReason::UnknownCancelFailureReason => "UNKNOWN_CANCEL_FAILURE_REASON"@,
            CancelOrderFailureReason::InvalidCancelRequest => "INVALID_CANCEL_REQUEST"@,
            CancelOrderFailureReason::UnknownCancelOrder => "UNKNOWN_CANCEL_ORDER"@,
            CancelOrderFailureReason::CommanderRejectedCancelOrder => "COMMANDER_REJECTED_CANCEL_ORDER"@,
            CancelOrderFailureReason::DuplicateCancelRequest => "DUPLICATE_CANCEL_REQUEST"@,
        }
    }

    /// Renders this value as its wire name.
    pub fn wire_name(&self) -> (r: &'static str)
        ensures
            r@ == self.wire_spec(),
    {
        match self {
            CancelOrderFailureReason::UnknownCancelFailureReason => "UNKNOWN_CANCEL_FAILURE_REASON",
            CancelOrderFailureReason::InvalidCancelRequest => "INVALID_CANCEL_REQUEST",
            CancelOrderFailureReason::UnknownCancelOrder => "UNKNOWN_CANCEL_ORDER",
            CancelOrderFailureReason::CommanderRejectedCancelOrder => "COMMANDER_REJECTED_CANCEL_ORDER",
            CancelOrderFailureReason::DuplicateCancelRequest => "DUPLICATE_CANCEL_REQUEST",
        }
    }

    /// The value a wire name stands for; `None` for an unknown name.
    pub open spec fn from_wire_spec(s: Seq<char>) -> Option<CancelOrderFailureReason> {
        if s == "UNKNOWN_CANCEL_FAILURE_REASON"@ {
            Some(CancelOrderFailureReason::UnknownCancelFailureReason)
        } else if s == "INVALID_CANCEL_REQUEST"@ {
            Some(CancelOrderFailureReason::InvalidCancelRequest)
        } else if s == "UNKNOWN_CANCEL_ORDER"@ {
            Some(CancelOrderFailureReason::UnknownCancelOrder)
        } else if s == "COMMANDER_REJECTED_CANCEL_ORDER"@ {
            Some(CancelOrderFailureReason::CommanderRejectedCancelOrder)
        } else if s == "DUPLICATE_CANCEL_REQUEST"@ {
            Some(CancelOrderFailureReason::DuplicateCancelRequest)
        } else {
            None
        }
    }

    /// Reads a wire name.
    pub fn from_wire(s: &str) -> (r: Option<CancelOrderFailureReason>)
        ensures
            r == Self::from_wire_spec(s@),
    {
        if str_eq(s, "UNKNOWN_CANCEL_FAILURE_REASON") {
            Some(CancelOrderFailureReason::UnknownCancelFailureReason)
        } else if str_eq(s, "INVALID_CANCEL_REQUEST") {
            Some(CancelOrderFailureReason::InvalidCancelRequest)
        } else if str_eq(s, "UNKNOWN_CANCEL_ORDER") {
            Some(CancelOrderFailureReason::UnknownCancelOrder)
        } else if str_eq(s, "COMMANDER_REJECTED_CANCEL_ORDER") {
            Some(CancelOrderFailureReason::CommanderRejectedCancelOrder)
        } else if str_eq(s, "DUPLICATE_CANCEL_REQUEST") {
            Some(CancelOrderFailureReason::DuplicateCancelRequest)
        } else {
            None
        }
    }
}

/// A market order: spend `quote_size` of quote currency (buys) or
/// `base_size` of base currency (sells).  Sizes are decimal text.
#[derive(Debug, PartialEq)]
pub struct Market {
    pub quote_size: Option<String>,
    pub base_size: Option<String>,
}

/// The mathematical content of a [`Market`].
pub struct MarketView {
    pub quote_size: Option<Seq<char>>,
    pub base_size: Option<Seq<char>>,
}

impl View for Market {
    type V = MarketView;

    open spec fn view(&self) -> MarketView {
        MarketView { quote_size: opt_view(self.quote_size), base_size: opt_view(self.base_size) }
    }
}

/// The market order carried by an object's members.
pub open spec fn market_of_fields(fs: Seq<(String, JsonValue)>) -> Option<MarketView> {
    let quote_size = opt_decimal_field(fs, "quote_size"@);
    let base_size = opt_decimal_field(fs, "base_size"@);
    if quote_size is None || base_size is None {
        None
    } else {
        Some(MarketView { quote_size: quote_size->0, base_size: base_size->0 })
    }
}

fn market_from_fields(fs: &Vec<(String, JsonValue)>) -> (r: Option<Market>)
    ensures
        match r {
            Some(m) => market_of_fields(fs@) == Some(m@),
            None => market_of_fields(fs@) is None,
        },
{
    let quote_size = match get_opt_decimal(fs, "quote_size") {
        Some(v) => clone_opt(v),
        None => { return None },
    };
    let base_size = match get_opt_decimal(fs, "base_size") {
        Some(v) => clone_opt(v),
        None => { return None },
    };
    Some(Market { quote_size, base_size })
}

/// A limit order: spend `base_size` at no worse than `limit_price`;
/// `end_time` only applies to good-til-date orders.
#[derive(Debug, PartialEq)]
pub struct Limit {
    pub base_size: String,
    pub limit_price: String,
    pub end_time: Option<String>,
    pub post_only: Option<bool>,
}

/// The mathematical content of a [`Limit`].
pub struct LimitView {
    pub base_size: Seq<char>,
    pub limit_price: Seq<char>,
    pub end_time: Option<Seq<char>>,
    pub post_only: Option<bool>,
}

impl View for Limit {
    type V = LimitView;

    open spec fn view(&self) -> LimitView {
        LimitView {
            base_size: self.base_size@,
            limit_price: self.limit_price@,
            end_time: opt_view(self.end_time),
            post_only: self.post_only,
        }
    }
}

/// The limit order carried by an object's members.
pub open spec fn limit_of_fields(fs: Seq<(String, JsonValue)>) -> Option<LimitView> {
    let base_size = decimal_field(fs, "base_size"@);
    let limit_price = decimal_field(fs, "limit_price"@);
    let end_time = opt_datetime_field(fs, "end_time"@);
    let post_only = opt_bool_field(fs, "post_only"@);
    if base_size is None || limit_price is None || end_time is None || post_only is None {
        None
    } else {
        Some(
            LimitView {
                base_size: base_size->0,
                limit_price: limit_price->0,
                end_time: end_time->0,
                post_only: post_only->0,
            },
        )
    }
}

fn limit_from_fields(fs: &Vec<(String, JsonValue)>) -> (r: Option<Limit>)
    ensures
        match r {
            Some(l) => limit_of_fields(fs@) == Some(l@),
            None => limit_of_fields(fs@) is None,
        },
{
    let base_size = match get_decimal(fs, "base_size") {
        Some(v) => v.clone(),
        None => { return None },
    };
    let limit_price = match get_decimal(fs, "limit_price") {
        Some(v) => v.clone(),
        None => { return None },
    };
    let end_time = match get_opt_datetime(fs, "end_time") {
        Some(v) => clone_opt(v),
        None => { return None },
    };
    let post_only = match get_opt_bool(fs, "post_only") {
        Some(v) => v,
        None => { return None },
    };
    Some(Limit { base_size, limit_price, end_time, post_only })
}

/// A stop-limit order: triggers at `stop_price` in `stop_direction`,
/// then behaves as a limit order at `limit_price`.
#[derive(Debug, PartialEq)]
pub struct StopLimit {
    pub base_size: String,
    pub limit_price: String,
    pub stop_price: String,
    pub stop_direction: StopDirection,
    pub end_time: Option<String>,
}

/// The mathematical content of a [`StopLimit`].
pub struct StopLimitView {
    pub base_size: Seq<char>,
    pub limit_price: Seq<char>,
    pub stop_price: Seq<char>,
    pub stop_direction: StopDirection,
    pub end_time: Option<Seq<char>>,
}

impl View for StopLimit {
    type V = StopLimitView;

    open spec fn view(&self) -> StopLimitView {
        StopLimitView {
            base_size: self.base_size@,
            limit_price: self.limit_price@,
            stop_price: self.stop_price@,
            stop_direction: self.stop_direction,
            end_time: opt_view(self.end_time),
        }
    }
}

/// The stop-limit order carried by an object's members.
pub open spec fn stop_limit_of_fields(fs: Seq<(String, JsonValue)>) -> Option<StopLimitView> {
    let base_size = decimal_field(fs, "base_size"@);
    let limit_price = decimal_field(fs, "limit_price"@);
    let stop_price = decimal_field(fs, "stop_price"@);
    let stop_direction = str_field(fs, "stop_direction"@);
    let end_time = opt_datetime_field(fs, "end_time"@);
    if base_size is None || limit_price is None || stop_price is None || stop_direction is None
        || StopDirection::from_wire_spec(stop_direction->0) is None || end_time is None {
        None
    } else {
        Some(
            StopLimitView {
                base_size: base_size->0,
                limit_price: limit_price->0,
                stop_price: stop_price->0,
                stop_direction: StopDirection::from_wire_spec(stop_direction->0)->0,
                end_time: end_time->0,
            },
        )
    }
}

fn stop_limit_from_fields(fs: &Vec<(String, JsonValue)>) -> (r: Option<StopLimit>)
    ensures
        match r {
            Some(l) => stop_limit_of_fields(fs@) == Some(l@),
            None => stop_limit_of_fields(fs@) is None,
        },
{
    let base_size = match get_decimal(fs, "base_size") {
        Some(v) => v.clone(),
        None => { return None },
    };
    let limit_price = match get_decimal(fs, "limit_price") {
        Some(v) => v.clone(),
        None => { return None },
    };
    let stop_price = match get_decimal(fs, "stop_price") {
        Some(v) => v.clone(),
        None => { return None },
    };
    let stop_direction = match get_str(fs, "stop_direction") {
        Some(v) => match StopDirection::from_wire(v.as_str()) {
            Some(d) => d,
            None => { return None },
        },
        None => { return None },
    };
    let end_time = match get_opt_datetime(fs, "end_time") {
        Some(v) => clone_opt(v),
        None => { return None },
    };
    Some(StopLimit { base_size, limit_price, stop_price, stop_direction, end_time })
}

/// An order's configuration: at most one of the variants is normally
/// present, but the shape mirrors the wire, where each variant is its
/// own optional member.
#[derive(Debug, PartialEq)]
pub struct OrderConfiguration {
    pub market_market_ioc: Option<Market>,
    pub limit_limit_gtc: Option<Limit>,
    pub limit_limit_gtd: Option<Limit>,
    pub stop_limit_stop_limit_gtc: Option<StopLimit>,
    pub stop_limit_stop_limit_gtd: Option<StopLimit>,
}

/// The mathematical content of an [`OrderConfiguration`].
pub struct OrderConfigurationView {
    pub market_market_ioc: Option<MarketView>,
    pub limit_limit_gtc: Option<LimitView>,
    pub limit_limit_gtd: Option<LimitView>,
    pub stop_limit_stop_limit_gtc: Option<StopLimitView>,
    pub stop_limit_stop_limit_gtd: Option<StopLimitView>,
}

impl View for OrderConfiguration {
    type V = OrderConfigurationView;

    open spec fn view(&self) -> OrderConfigurationView {
        OrderConfigurationView {
            market_market_ioc: match self.market_market_ioc {
                Some(m) => Some(m@),
                None => None,
            },
            limit_limit_gtc: match self.limit_limit_gtc {
                Some(l) => Some(l@),
                None => None,
            },
            limit_limit_gtd: match self.limit_limit_gtd {
                Some(l) => Some(l@),
                None => None,
            },
            stop_limit_stop_limit_gtc: match self.stop_limit_stop_limit_gtc {
                Some(l) => Some(l@),
                None => None,
            },
            stop_limit_stop_limit_gtd: match self.stop_limit_stop_limit_gtd {
                Some(l) => Some(l@),
                None => None,
            },
        }
    }
}

/// A market order of an optional member.
pub open spec fn opt_market_of(o: Option<Seq<(String, JsonValue)>>) -> Option<Option<MarketView>> {
    match o {
        None => Some(None),
        Some(gs) => match market_of_fields(gs) {
            Some(m) => Some(Some(m)),
            None => None,
        },
    }
}

/// A limit order of an optional member.
pub open spec fn opt_limit_of(o: Option<Seq<(String, JsonValue)>>) -> Option<Option<LimitView>> {
    match o {
        None => Some(None),
        Some(gs) => match limit_of_fields(gs) {
            Some(l) => Some(Some(l)),
            None => None,
        },
    }
}

/// A stop-limit order of an optional member.
pub open spec fn opt_stop_limit_of(o: Option<Seq<(String, JsonValue)>>) -> Option<
    Option<StopLimitView>,
> {
    match o {
        None => Some(None),
        Some(gs) => match stop_limit_of_fields(gs) {
            Some(l) => Some(Some(l)),
            None => None,
        },
    }
}

/// The order configuration carried by an object's members.
pub open spec fn order_config_of_fields(fs: Seq<(String, JsonValue)>) -> Option<
    OrderConfigurationView,
> {
    let market = opt_obj_field(fs, "market_market_ioc"@);
    let gtc = opt_obj_field(fs, "limit_limit_gtc"@);
    let gtd = opt_obj_field(fs, "limit_limit_gtd"@);
    let sl_gtc = opt_obj_field(fs, "stop_limit_stop_limit_gtc"@);
    let sl_gtd = opt_obj_field(fs, "stop_limit_stop_limit_gtd"@);
    if market is None || opt_market_of(market->0) is None || gtc is None || opt_limit_of(
        gtc->0,
    ) is None || gtd is None || opt_limit_of(gtd->0) is None || sl_gtc is None
        || opt_stop_limit_of(sl_gtc->0) is None || sl_gtd is None || opt_stop_limit_of(
        sl_gtd->0,
    ) is None {
        None
    } else {
        Some(
            OrderConfigurationView {
                market_market_ioc: opt_market_of(market->0)->0,
                limit_limit_gtc: opt_limit_of(gtc->0)->0,
                limit_limit_gtd: opt_limit_of(gtd->0)->0,
                stop_limit_stop_limit_gtc: opt_stop_limit_of(sl_gtc->0)->0,
                stop_limit_stop_limit_gtd: opt_stop_limit_of(sl_gtd->0)->0,
            },
        )
    }
}

impl FromJson for OrderConfiguration {
    open spec fn from_json_spec(j: JsonValue) -> Option<OrderConfigurationView> {
        match j {
            JsonValue::Object(fs) => order_config_of_fields(fs@),
            _ => None,
        }
    }

    fn from_json(j: &JsonValue) -> (r: Option<OrderConfiguration>) {
        let fs = match j {
            JsonValue::Object(fs) => fs,
            _ => { return None },
        };
        OrderConfiguration::from_json_fields(fs)
    }
}

impl OrderConfiguration {
    /// Decodes an order configuration from an object's members.
    pub fn from_json_fields(fs: &Vec<(String, JsonValue)>) -> (r: Option<OrderConfiguration>)
        ensures
            match r {
                Some(c) => order_config_of_fields(fs@) == Some(c@),
                None => order_config_of_fields(fs@) is None,
            },
    {
        let market_market_ioc = match get_opt_obj(fs, "market_market_ioc") {
            Some(Some(gs)) => match market_from_fields(gs) {
                Some(m) => Some(m),
                None => { return None },
            },
            Some(None) => None,
            None => { return None },
        };
        let limit_limit_gtc = match get_opt_obj(fs, "limit_limit_gtc") {
            Some(Some(gs)) => match limit_from_fields(gs) {
                Some(l) => Some(l),
                None => { return None },
            },
            Some(None) => None,
            None => { return None },
        };
        let limit_limit_gtd = match get_opt_obj(fs, "limit_limit_gtd") {
            Some(Some(gs)) => match limit_from_fields(gs) {
                Some(l) => Some(l),
                None => { return None },
            },
            Some(None) => None,
            None => { return None },
        };
        let stop_limit_stop_limit_gtc = match get_opt_obj(fs, "stop_limit_stop_limit_gtc") {
            Some(Some(gs)) => match stop_limit_from_fields(gs) {
                Some(l) => Some(l),
                None => { return None },
            },
            Some(None) => None,
            None => { return None },
        };
        let stop_limit_stop_limit_gtd = match get_opt_obj(fs, "stop_limit_stop_limit_gtd") {
            Some(Some(gs)) => match stop_limit_from_fields(gs) {
                Some(l) => Some(l),
                None => { return None },
            },
            Some(None) => None,
            None => { return None },
        };
        Some(
            OrderConfiguration {
                market_market_ioc,
                limit_limit_gtc,
                limit_limit_gtd,
                stop_limit_stop_limit_gtc,
                stop_limit_stop_limit_gtd,
            },
        )
    }
}

/// One historical order, as the service reports it.
#[derive(Debug, PartialEq)]
pub struct Order {
    pub order_id: String,
    pub product_id: String,
    pub user_id: String,
    pub order_configuration: OrderConfiguration,
    pub side: Side,
    pub client_order_id: String,
    pub status: Status,
    pub time_in_force: TimeInForce,
    pub created_time: String,
    pub completion_percentage: String,
    pub filled_size: String,
    pub average_filled_price: String,
    pub fee: String,
    pub number_of_fills: String,
    pub filled_value: String,
    pub pending_cancel: bool,
    pub size_in_quote: bool,
    pub total_fees: String,
    pub size_inclusive_of_fees: bool,
    pub total_value_after_fees: String,
    pub trigger_status: TriggerStatus,
    pub order_type: OrderType,
    pub reject_reason: RejectReason,
    pub settled: bool,
    pub product_type: ProductType,
    pub reject_message: Option<String>,
    pub cancel_message: Option<String>,
    pub order_placement_source: OrderPlacementSource,
    pub outstanding_hold_amount: String,
    pub is_liquidation: bool,
}

/// The mathematical content of a [`Order`].
pub struct OrderView {
    pub order_id: Seq<char>,
    pub product_id: Seq<char>,
    pub user_id: Seq<char>,
    pub order_configuration: OrderConfigurationView,
    pub side: Side,
    pub client_order_id: Seq<char>,
    pub status: Status,
    pub time_in_force: TimeInForce,
    pub created_time: Seq<char>,
    pub completion_percentage: Seq<char>,
    pub filled_size: Seq<char>,
    pub average_filled_price: Seq<char>,
    pub fee: Seq<char>,
    pub number_of_fills: Seq<char>,
    pub filled_value: Seq<char>,
    pub pending_cancel: bool,
    pub size_in_quote: bool,
    pub total_fees: Seq<char>,
    pub size_inclusive_of_fees: bool,
    pub total_value_after_fees: Seq<char>,
    pub trigger_status: TriggerStatus,
    pub order_type: OrderType,
    pub reject_reason: RejectReason,
    pub settled: bool,
    pub product_type: ProductType,
    pub reject_message: Option<Seq<char>>,
    pub cancel_message: Option<Seq<char>>,
    pub order_placement_source: OrderPlacementSource,
    pub outstanding_hold_amount: Seq<char>,
    pub is_liquidation: bool,
}

impl View for Order {
    type V = OrderView;

    open spec fn view(&self) -> OrderView {
        OrderView {
            order_id: self.order_id@,
            product_id: self.product_id@,
            user_id: self.user_id@,
            order_configuration: self.order_configuration@,
            side: self.side,
            client_order_id: self.client_order_id@,
            status: self.status,
            time_in_force: self.time_in_force,
            created_time: self.created_time@,
            completion_percentage: self.completion_percentage@,
            filled_size: self.filled_size@,
            average_filled_price: self.average_filled_price@,
            fee: self.fee@,
            number_of_fills: self.number_of_fills@,
            filled_value: self.filled_value@,
            pending_cancel: self.pending_cancel,
            size_in_quote: self.size_in_quote,
            total_fees: self.total_fees@,
            size_inclusive_of_fees: self.size_inclusive_of_fees,
            total_value_after_fees: self.total_value_after_fees@,
            trigger_status: self.trigger_status,
            order_type: self.order_type,
            reject_reason: self.reject_reason,
            settled: self.settled,
            product_type: self.product_type,
            reject_message: opt_view(self.reject_message),
            cancel_message: opt_view(self.cancel_message),
            order_placement_source: self.order_placement_source,
            outstanding_hold_amount: self.outstanding_hold_amount@,
            is_liquidation: self.is_liquidation,
        }
    }
}

/// The order carried by an object's members.
pub open spec fn order_of_fields(fs: Seq<(String, JsonValue)>) -> Option<OrderView> {
    let order_id = str_field(fs, "order_id"@);
    let product_id = str_field(fs, "product_id"@);
    let user_id = str_field(fs, "user_id"@);
    let order_configuration = obj_field(fs, "order_configuration"@);
    let side = str_field(fs, "side"@);
    let client_order_id = str_field(fs, "client_order_id"@);
    let status = str_field(fs, "status"@);
    let time_in_force = str_field(fs, "time_in_force"@);
    let created_time = datetime_field(fs, "created_time"@);
    let completion_percentage = str_field(fs, "completion_percentage"@);
    let filled_size = str_field(fs, "filled_size"@);
    let average_filled_price = str_field(fs, "average_filled_price"@);
    let fee = str_field(fs, "fee"@);
    let number_of_fills = str_field(fs, "number_of_fills"@);
    let filled_value = str_field(fs, "filled_value"@);
    let pending_cancel = bool_field(fs, "pending_cancel"@);
    let size_in_quote = bool_field(fs, "size_in_quote"@);
    let total_fees = str_field(fs, "total_fees"@);
    let size_inclusive_of_fees = bool_field(fs, "size_inclusive_of_fees"@);
    let total_value_after_fees = str_field(fs, "total_value_after_fees"@);
    let trigger_status = str_field(fs, "trigger_status"@);
    let order_type = str_field(fs, "order_type"@);
    let reject_reason = str_field(fs, "reject_reason"@);
    let settled = bool_field(fs, "settled"@);
    let product_type = str_field(fs, "product_type"@);
    let reject_message = opt_str_field(fs, "reject_message"@);
    let cancel_message = opt_str_field(fs, "cancel_message"@);
    let order_placement_source = str_field(fs, "order_placement_source"@);
    let outstanding_hold_amount = str_field(fs, "outstanding_hold_amount"@);
    let is_liquidation = bool_field(fs, "is_liquidation"@);
    if order_id is None || product_id is None || user_id is None || order_configuration is None || order_config_of_fields(order_configuration->0) is None || side is None || Side::from_wire_spec(side->0) is None || client_order_id is None || status is None || Status::from_wire_spec(status->0) is None || time_in_force is None || TimeInForce::from_wire_spec(time_in_force->0) is None || created_time is None || completion_percentage is None || filled_size is None || average_filled_price is None || fee is None || number_of_fills is None || filled_value is None || pending_cancel is None || size_in_quote is None || total_fees is None || size_inclusive_of_fees is None || total_value_after_fees is None || trigger_status is None || TriggerStatus::from_wire_spec(trigger_status->0) is None || order_type is None || OrderType::from_wire_spec(order_type->0) is None || reject_reason is None || RejectReason::from_wire_spec(reject_reason->0) is None || settled is None || product_type is None || ProductType::from_wire_spec(product_type->0) is None || reject_message is None || cancel_message is None || order_placement_source is None || OrderPlacementSource::from_wire_spec(order_placement_source->0) is None || outstanding_hold_amount is None || is_liquidation is None {
        None
    } else {
        Some(
            OrderView {
                order_id: order_id->0,
                product_id: product_id->0,
                user_id: user_id->0,
                order_configuration: order_config_of_fields(order_configuration->0)->0,
                side: Side::from_wire_spec(side->0)->0,
                client_order_id: client_order_id->0,
                status: Status::from_wire_spec(status->0)->0,
                time_in_force: TimeInForce::from_wire_spec(time_in_force->0)->0,
                created_time: created_time->0,
                completion_percentage: completion_percentage->0,
                filled_size: filled_size->0,
                average_filled_price: average_filled_price->0,
                fee: fee->0,
                number_of_fills: number_of_fills->0,
                filled_value: filled_value->0,
                pending_cancel: pending_cancel->0,
                size_in_quote: size_in_quote->0,
                total_fees: total_fees->0,
                size_inclusive_of_fees: size_inclusive_of_fees->0,
                total_value_after_fees: total_value_after_fees->0,
                trigger_status: TriggerStatus::from_wire_spec(trigger_status->0)->0,
                order_type: OrderType::from_wire_spec(order_type->0)->0,
                reject_reason: RejectReason::from_wire_spec(reject_reason->0)->0,
                settled: settled->0,
                product_type: ProductType::from_wire_spec(product_type->0)->0,
                reject_message: reject_message->0,
                cancel_message: cancel_message->0,
                order_placement_source: OrderPlacementSource::from_wire_spec(order_placement_source->0)->0,
                outstanding_hold_amount: outstanding_hold_amount->0,
                is_liquidation: is_liquidation->0,
            },
        )
    }
}

impl FromJson for Order {
    open spec fn from_json_spec(j: JsonValue) -> Option<OrderView> {
        match j {
            JsonValue::Object(fs) => order_of_fields(fs@),
            _ => None,
        }
    }

    fn from_json(j: &JsonValue) -> (r: Option<Order>) {
        let fs = match j {
            JsonValue::Object(fs) => fs,
            _ => { return None },
        };
        Order::from_json_fields(fs)
    }
}

impl Order {
    /// Decodes an order from an object's members.
    #[verifier::rlimit(60)]
    pub fn from_json_fields(fs: &Vec<(String, JsonValue)>) -> (r: Option<Order>)
        ensures
            match r {
                Some(o) => order_of_fields(fs@) == Some(o@),
                None => order_of_fields(fs@) is None,
            },
    {
        let order_id = match get_str(fs, "order_id") {
            Some(v) => v.clone(),
            None => { return None },
        };
        let product_id = match get_str(fs, "product_id") {
            Some(v) => v.clone(),
            None => { return None },
        };
        let user_id = match get_str(fs, "user_id") {
            Some(v) => v.clone(),
            None => { return None },
        };
        let order_configuration = match get_obj(fs, "order_configuration") {
            Some(gs) => match OrderConfiguration::from_json_fields(gs) {
                Some(c) => c,
                None => { return None },
            },
            None => { return None },
        };
        let side = match get_str(fs, "side") {
            Some(v) => match Side::from_wire(v.as_str()) {
                Some(t) => t,
                None => { return None },
            },
            None => { return None },
        };
        let client_order_id = match get_str(fs, "client_order_id") {
            Some(v) => v.clone(),
            None => { return None },
        };
        let status = match get_str(fs, "status") {
            Some(v) => match Status::from_wire(v.as_str()) {
                Some(t) => t,
                None => { return None },
            },
            None => { return None },
        };
        let time_in_force = match get_str(fs, "time_in_force") {
            Some(v) => match TimeInForce::from_wire(v.as_str()) {
                Some(t) => t,
                None => { return None },
            },
            None => { return None },
        };
        let created_time = match get_datetime(fs, "created_time") {
            Some(v) => v.clone(),
            None => { return None },
        };
        let completion_percentage = match get_str(fs, "completion_percentage") {
            Some(v) => v.clone(),
            None => { return None },
        };
        let filled_size = match get_str(fs, "filled_size") {
            Some(v) => v.clone(),
            None => { return None },
        };
        let average_filled_price = match get_str(fs, "average_filled_price") {
            Some(v) => v.clone(),
            None => { return None },
        };
        let fee = match get_str(fs, "fee") {
            Some(v) => v.clone(),
            None => { return None },
        };
        let number_of_fills = match get_str(fs, "number_of_fills") {
            Some(v) => v.clone(),
            None => { return None },
        };
        let filled_value = match get_str(fs, "filled_value") {
            Some(v) => v.clone(),
            None => { return None },
        };
        let pending_cancel = match get_bool(fs, "pending_cancel") {
            Some(v) => v,
            None => { return None },
        };
        let size_in_quote = match get_bool(fs, "size_in_quote") {
            Some(v) => v,
            None => { return None },
        };
        let total_fees = match get_str(fs, "total_fees") {
            Some(v) => v.clone(),
            None => { return None },
        };
        let size_inclusive_of_fees = match get_bool(fs, "size_inclusive_of_fees") {
            Some(v) => v,
            None => { return None },
        };
        let total_value_after_fees = match get_str(fs, "total_value_after_fees") {
            Some(v) => v.clone(),
            None => { return None },
        };
        let trigger_status = match get_str(fs, "trigger_status") {
            Some(v) => match TriggerStatus::from_wire(v.as_str()) {
                Some(t) => t,
                None => { return None },
            },
            None => { return None },
        };
        let order_type = match get_str(fs, "order_type") {
            Some(v) => match OrderType::from_wire(v.as_str()) {
                Some(t) => t,
                None => { return None },
            },
            None => { return None },
        };
        let reject_reason = match get_str(fs, "reject_reason") {
            Some(v) => match RejectReason::from_wire(v.as_str()) {
                Some(t) => t,
                None => { return None },
            },
            None => { return None },
        };
        let settled = match get_bool(fs, "settled") {
            Some(v) => v,
            None => { return None },
        };
        let product_type = match get_str(fs, "product_type") {
            Some(v) => match ProductType::from_wire(v.as_str()) {
                Some(t) => t,
                None => { return None },
            },
            None => { return None },
        };
        let reject_message = match get_opt_str(fs, "reject_message") {
            Some(v) => clone_opt(v),
            None => { return None },
        };
        let cancel_message = match get_opt_str(fs, "cancel_message") {
            Some(v) => clone_opt(v),
            None => { return None },
        };
        let order_placement_source = match get_str(fs, "order_placement_source") {
            Some(v) => match OrderPlacementSource::from_wire(v.as_str()) {
                Some(t) => t,
                None => { return None },
            },
            None => { return None },
        };
        let outstanding_hold_amount = match get_str(fs, "outstanding_hold_amount") {
            Some(v) => v.clone(),
            None => { return None },
        };
        let is_liquidation = match get_bool(fs, "is_liquidation") {
            Some(v) => v,
            None => { return None },
        };
        Some(
            Order {
                order_id,
                product_id,
                user_id,
                order_configuration,
                side,
                client_order_id,
                status,
                time_in_force,
                created_time,
                completion_percentage,
                filled_size,
                average_filled_price,
                fee,
                number_of_fills,
                filled_value,
                pending_cancel,
                size_in_quote,
                total_fees,
                size_inclusive_of_fees,
                total_value_after_fees,
                trigger_status,
                order_type,
                reject_reason,
                settled,
                product_type,
                reject_message,
                cancel_message,
                order_placement_source,
                outstanding_hold_amount,
                is_liquidation,
            },
        )
    }
}

/// One fill posted for an order.
#[derive(Debug, PartialEq)]
pub struct Fill {
    pub entry_id: String,
    pub trade_id: String,
    pub order_id: String,
    pub trade_time: String,
    pub trade_type: TradeType,
    pub price: String,
    pub size: String,
    pub commission: String,
    pub product_id: String,
    pub sequence_timestamp: String,
    pub liquidity_indicator: LiquidityIndicator,
    pub size_in_quote: bool,
    pub user_id: String,
    pub side: Side,
}

/// The mathematical content of a [`Fill`].
pub struct FillView {
    pub entry_id: Seq<char>,
    pub trade_id: Seq<char>,
    pub order_id: Seq<char>,
    pub trade_time: Seq<char>,
    pub trade_type: TradeType,
    pub price: Seq<char>,
    pub size: Seq<char>,
    pub commission: Seq<char>,
    pub product_id: Seq<char>,
    pub sequence_timestamp: Seq<char>,
    pub liquidity_indicator: LiquidityIndicator,
    pub size_in_quote: bool,
    pub user_id: Seq<char>,
    pub side: Side,
}

impl View for Fill {
    type V = FillView;

    open spec fn view(&self) -> FillView {
        FillView {
            entry_id: self.entry_id@,
            trade_id: self.trade_id@,
            order_id: self.order_id@,
            trade_time: self.trade_time@,
            trade_type: self.trade_type,
            price: self.price@,
            size: self.size@,
            commission: self.commission@,
            product_id: self.product_id@,
            sequence_timestamp: self.sequence_timestamp@,
            liquidity_indicator: self.liquidity_indicator,
            size_in_quote: self.size_in_quote,
            user_id: self.user_id@,
            side: self.side,
        }
    }
}

/// The fill carried by an object's members.
pub open spec fn fill_of_fields(fs: Seq<(String, JsonValue)>) -> Option<FillView> {
    let entry_id = str_field(fs, "entry_id"@);
    let trade_id = str_field(fs, "trade_id"@);
    let order_id = str_field(fs, "order_id"@);
    let trade_time = datetime_field(fs, "trade_time"@);
    let trade_type = str_field(fs, "trade_type"@);
    let price = str_field(fs, "price"@);
    let size = str_field(fs, "size"@);
    let commission = str_field(fs, "commission"@);
    let product_id = str_field(fs, "product_id"@);
    let sequence_timestamp = datetime_field(fs, "sequence_timestamp"@);
    let liquidity_indicator = str_field(fs, "liquidity_indicator"@);
    let size_in_quote = bool_field(fs, "size_in_quote"@);
    let user_id = str_field(fs, "user_id"@);
    let side = str_field(fs, "side"@);
    if entry_id is None || trade_id is None || order_id is None || trade_time is None || trade_type is None || TradeType::from_wire_spec(trade_type->0) is None || price is None || size is None || commission is None || product_id is None || sequence_timestamp is None || liquidity_indicator is None || LiquidityIndicator::from_wire_spec(liquidity_indicator->0) is None || size_in_quote is None || user_id is None || side is None || Side::from_wire_spec(side->0) is None {
        None
    } else {
        Some(
            FillView {
                entry_id: entry_id->0,
                trade_id: trade_id->0,
                order_id: order_id->0,
                trade_time: trade_time->0,
                trade_type: TradeType::from_wire_spec(trade_type->0)->0,
                price: price->0,
                size: size->0,
                commission: commission->0,
                product_id: product_id->0,
                sequence_timestamp: sequence_timestamp->0,
                liquidity_indicator: LiquidityIndicator::from_wire_spec(liquidity_indicator->0)->0,
                size_in_quote: size_in_quote->0,
                user_id: user_id->0,
                side: Side::from_wire_spec(side->0)->0,
            },
        )
    }
}

impl FromJson for Fill {
    open spec fn from_json_spec(j: JsonValue) -> Option<FillView> {
        match j {
            JsonValue::Object(fs) => fill_of_fields(fs@),
            _ => None,
        }
    }

    #[verifier::rlimit(60)]
    fn from_json(j: &JsonValue) -> (r: Option<Fill>) {
        let fs = match j {
            JsonValue::Object(fs) => fs,
            _ => { return None },
        };
        let entry_id = match get_str(fs, "entry_id") {
            Some(v) => v.clone(),
            None => { return None },
        };
        let trade_id = match get_str(fs, "trade_id") {
            Some(v) => v.clone(),
            None => { return None },
        };
        let order_id = match get_str(fs, "order_id") {
            Some(v) => v.clone(),
            None => { return None },
        };
        let trade_time = match get_datetime(fs, "trade_time") {
            Some(v) => v.clone(),
            None => { return None },
        };
        let trade_type = match get_str(fs, "trade_type") {
            Some(v) => match TradeType::from_wire(v.as_str()) {
                Some(t) => t,
                None => { return None },
            },
            None => { return None },
        };
        let price = match get_str(fs, "price") {
            Some(v) => v.clone(),
            None => { return None },
        };
        let size = match get_str(fs, "size") {
            Some(v) => v.clone(),
            None => { return None },
        };
        let commission = match get_str(fs, "commission") {
            Some(v) => v.clone(),
            None => { return None },
        };
        let product_id = match get_str(fs, "product_id") {
            Some(v) => v.clone(),
            None => { return None },
        };
        let sequence_timestamp = match get_datetime(fs, "sequence_timestamp") {
            Some(v) => v.clone(),
            None => { return None },
        };
        let liquidity_indicator = match get_str(fs, "liquidity_indicator") {
            Some(v) => match LiquidityIndicator::from_wire(v.as_str()) {
                Some(t) => t,
                None => { return None },
            },
            None => { return None },
        };
        let size_in_quote = match get_bool(fs, "size_in_quote") {
            Some(v) => v,
            None => { return None },
        };
        let user_id = match get_str(fs, "user_id") {
            Some(v) => v.clone(),
            None => { return None },
        };
        let side = match get_str(fs, "side") {
            Some(v) => match Side::from_wire(v.as_str()) {
                Some(t) => t,
                None => { return None },
            },
            None => { return None },
        };
        Some(
            Fill {
                entry_id,
                trade_id,
                order_id,
                trade_time,
                trade_type,
                price,
                size,
                commission,
                product_id,
                sequence_timestamp,
                liquidity_indicator,
                size_in_quote,
                user_id,
                side,
            },
        )
    }
}


/// The envelope wrapping a single order.
#[derive(Debug, PartialEq)]
pub struct OrderResponse {
    pub order: Order,
}

/// The mathematical content of an [`OrderResponse`].
pub struct OrderResponseView {
    pub order: OrderView,
}

impl View for OrderResponse {
    type V = OrderResponseView;

    open spec fn view(&self) -> OrderResponseView {
        OrderResponseView { order: self.order@ }
    }
}

impl FromJson for OrderResponse {
    open spec fn from_json_spec(j: JsonValue) -> Option<OrderResponseView> {
        match j {
            JsonValue::Object(fs) => match obj_field(fs@, "order"@) {
                Some(gs) => match order_of_fields(gs) {
                    Some(o) => Some(OrderResponseView { order: o }),
                    None => None,
                },
                None => None,
            },
            _ => None,
        }
    }

    fn from_json(j: &JsonValue) -> (r: Option<OrderResponse>) {
        let fs = match j {
            JsonValue::Object(fs) => fs,
            _ => { return None },
        };
        let gs = match get_obj(fs, "order") {
            Some(gs) => gs,
            None => { return None },
        };
        match Order::from_json_fields(gs) {
            Some(order) => Some(OrderResponse { order }),
            None => None,
        }
    }
}

/// The envelope of the paginated order listing: the batch, a sequence
/// marker, the explicit continuation flag and the cursor.
#[derive(Debug, PartialEq)]
pub struct OrdersResponse {
    pub orders: Vec<Order>,
    pub sequence: String,
    pub has_next: bool,
    pub cursor: String,
}

/// The mathematical content of an [`OrdersResponse`].
pub struct OrdersResponseView {
    pub orders: Seq<OrderView>,
    pub sequence: Seq<char>,
    pub has_next: bool,
    pub cursor: Seq<char>,
}

impl View for OrdersResponse {
    type V = OrdersResponseView;

    open spec fn view(&self) -> OrdersResponseView {
        OrdersResponseView {
            orders: self.orders@.map_values(|o: Order| o@),
            sequence: self.sequence@,
            has_next: self.has_next,
            cursor: self.cursor@,
        }
    }
}

impl FromJson for OrdersResponse {
    open spec fn from_json_spec(j: JsonValue) -> Option<OrdersResponseView> {
        match j {
            JsonValue::Object(fs) => {
                let orders = arr_field(fs@, "orders"@);
                let sequence = str_field(fs@, "sequence"@);
                let has_next = bool_field(fs@, "has_next"@);
                let cursor = str_field(fs@, "cursor"@);
                if orders is None || seq_of::<Order>(orders->0) is None || sequence is None
                    || has_next is None || cursor is None {
                    None
                } else {
                    Some(
                        OrdersResponseView {
                            orders: seq_of::<Order>(orders->0)->0,
                            sequence: sequence->0,
                            has_next: has_next->0,
                            cursor: cursor->0,
                        },
                    )
                }
            },
            _ => None,
        }
    }

    fn from_json(j: &JsonValue) -> (r: Option<OrdersResponse>) {
        let fs = match j {
            JsonValue::Object(fs) => fs,
            _ => { return None },
        };
        let orders = match get_arr(fs, "orders") {
            Some(xs) => match vec_from_json::<Order>(xs) {
                Some(v) => v,
                None => { return None },
            },
            None => { return None },
        };
        let sequence = match get_str(fs, "sequence") {
            Some(v) => v.clone(),
            None => { return None },
        };
        let has_next = match get_bool(fs, "has_next") {
            Some(v) => v,
            None => { return None },
        };
        let cursor = match get_str(fs, "cursor") {
            Some(v) => v.clone(),
            None => { return None },
        };
        Some(OrdersResponse { orders, sequence, has_next, cursor })
    }
}

impl OrdersResponse {
    /// Normalizes this envelope into one page of the pagination engine:
    /// the batch plus the explicit-flag continuation signal.
    pub fn into_page(self) -> (r: crate::pagination::PageData<Order>)
        ensures
            r.items == self.orders,
            r.has_next == self.has_next,
            r.cursor == self.cursor,
    {
        crate::pagination::PageData {
            items: self.orders,
            has_next: self.has_next,
            cursor: self.cursor,
        }
    }
}

/// The envelope of the paginated fill listing: the batch and the cursor.
/// This family exposes no explicit flag — an empty cursor means the end.
#[derive(Debug, PartialEq)]
pub struct FillsResponse {
    pub fills: Vec<Fill>,
    pub cursor: String,
}

/// The mathematical content of a [`FillsResponse`].
pub struct FillsResponseView {
    pub fills: Seq<FillView>,
    pub cursor: Seq<char>,
}

impl View for FillsResponse {
    type V = FillsResponseView;

    open spec fn view(&self) -> FillsResponseView {
        FillsResponseView {
            fills: self.fills@.map_values(|f: Fill| f@),
            cursor: self.cursor@,
        }
    }
}

impl FromJson for FillsResponse {
    open spec fn from_json_spec(j: JsonValue) -> Option<FillsResponseView> {
        match j {
            JsonValue::Object(fs) => {
                let fills = arr_field(fs@, "fills"@);
                let cursor = str_field(fs@, "cursor"@);
                if fills is None || seq_of::<Fill>(fills->0) is None || cursor is None {
                    None
                } else {
                    Some(
                        FillsResponseView {
                            fills: seq_of::<Fill>(fills->0)->0,
                            cursor: cursor->0,
                        },
                    )
                }
            },
            _ => None,
        }
    }

    fn from_json(j: &JsonValue) -> (r: Option<FillsResponse>) {
        let fs = match j {
            JsonValue::Object(fs) => fs,
            _ => { return None },
        };
        let fills = match get_arr(fs, "fills") {
            Some(xs) => match vec_from_json::<Fill>(xs) {
                Some(v) => v,
                None => { return None },
            },
            None => { return None },
        };
        let cursor = match get_str(fs, "cursor") {
            Some(v) => v.clone(),
            None => { return None },
        };
        Some(FillsResponse { fills, cursor })
    }
}
/// The success half of a create-order response.
#[derive(Debug, PartialEq)]
pub struct OrderSuccessResponse {
    pub order_id: String,
    pub product_id: String,
    pub side: OrderSide,
    pub client_order_id: String,
}

/// The mathematical content of an [`OrderSuccessResponse`].
pub struct OrderSuccessResponseView {
    pub order_id: Seq<char>,
    pub product_id: Seq<char>,
    pub side: Side,
    pub client_order_id: Seq<char>,
}

impl View for OrderSuccessResponse {
    type V = OrderSuccessResponseView;

    open spec fn view(&self) -> OrderSuccessResponseView {
        OrderSuccessResponseView {
            order_id: self.order_id@,
            product_id: self.product_id@,
            side: self.side,
            client_order_id: self.client_order_id@,
        }
    }
}

/// The success half carried by an object's members.
pub open spec fn order_success_of_fields(fs: Seq<(String, JsonValue)>) -> Option<
    OrderSuccessResponseView,
> {
    let order_id = str_field(fs, "order_id"@);
    let product_id = str_field(fs, "product_id"@);
    let side = str_field(fs, "side"@);
    let client_order_id = str_field(fs, "client_order_id"@);
    if order_id is None || product_id is None || side is None || Side::from_wire_spec(
        side->0,
    ) is None || client_order_id is None {
        None
    } else {
        Some(
            OrderSuccessResponseView {
                order_id: order_id->0,
                product_id: product_id->0,
                side: Side::from_wire_spec(side->0)->0,
                client_order_id: client_order_id->0,
            },
        )
    }
}

fn order_success_from_fields(fs: &Vec<(String, JsonValue)>) -> (r: Option<OrderSuccessResponse>)
    ensures
        match r {
            Some(v) => order_success_of_fields(fs@) == Some(v@),
            None => order_success_of_fields(fs@) is None,
        },
{
    let order_id = match get_str(fs, "order_id") {
        Some(v) => v.clone(),
        None => { return None },
    };
    let product_id = match get_str(fs, "product_id") {
        Some(v) => v.clone(),
        None => { return None },
    };
    let side = match get_str(fs, "side") {
        Some(v) => match Side::from_wire(v.as_str()) {
            Some(t) => t,
            None => { return None },
        },
        None => { return None },
    };
    let client_order_id = match get_str(fs, "client_order_id") {
        Some(v) => v.clone(),
        None => { return None },
    };
    Some(OrderSuccessResponse { order_id, product_id, side, client_order_id })
}

/// The error half of a create-order response.
#[derive(Debug, PartialEq)]
pub struct OrderErrorResponse {
    pub error: CreateOrderFailureReason,
    pub message: String,
    pub error_details: String,
    pub preview_failure_reason: PreviewCreateOrderFailureReason,
    pub new_order_failure_reason: CreateOrderFailureReason,
}

/// The mathematical content of an [`OrderErrorResponse`].
pub struct OrderErrorResponseView {
    pub error: CreateOrderFailureReason,
    pub message: Seq<char>,
    pub error_details: Seq<char>,
    pub preview_failure_reason: PreviewCreateOrderFailureReason,
    pub new_order_failure_reason: CreateOrderFailureReason,
}

impl View for OrderErrorResponse {
    type V = OrderErrorResponseView;

    open spec fn view(&self) -> OrderErrorResponseView {
        OrderErrorResponseView {
            error: self.error,
            message: self.message@,
            error_details: self.error_details@,
            preview_failure_reason: self.preview_failure_reason,
            new_order_failure_reason: self.new_order_failure_reason,
        }
    }
}

/// The error half carried by an object's members.
pub open spec fn order_error_of_fields(fs: Seq<(String, JsonValue)>) -> Option<
    OrderErrorResponseView,
> {
    let error = str_field(fs, "error"@);
    let message = str_field(fs, "message"@);
    let error_details = str_field(fs, "error_details"@);
    let preview = str_field(fs, "preview_failure_reason"@);
    let new_order = str_field(fs, "new_order_failure_reason"@);
    if error is None || CreateOrderFailureReason::from_wire_spec(error->0) is None
        || message is None || error_details is None || preview is None
        || PreviewCreateOrderFailureReason::from_wire_spec(preview->0) is None
        || new_order is None || CreateOrderFailureReason::from_wire_spec(new_order->0) is None {
        None
    } else {
        Some(
            OrderErrorResponseView {
                error: CreateOrderFailureReason::from_wire_spec(error->0)->0,
                message: message->0,
                error_details: error_details->0,
                preview_failure_reason: PreviewCreateOrderFailureReason::from_wire_spec(
                    preview->0,
                )->0,
                new_order_failure_reason: CreateOrderFailureReason::from_wire_spec(
                    new_order->0,
                )->0,
            },
        )
    }
}

fn order_error_from_fields(fs: &Vec<(String, JsonValue)>) -> (r: Option<OrderErrorResponse>)
    ensures
        match r {
            Some(v) => order_error_of_fields(fs@) == Some(v@),
            None => order_error_of_fields(fs@) is None,
        },
{
    let error = match get_str(fs, "error") {
        Some(v) => match CreateOrderFailureReason::from_wire(v.as_str()) {
            Some(t) => t,
            None => { return None },
        },
        None => { return None },
    };
    let message = match get_str(fs, "message") {
        Some(v) => v.clone(),
        None => { return None },
    };
    let error_details = match get_str(fs, "error_details") {
        Some(v) => v.clone(),
        None => { return None },
    };
    let preview_failure_reason = match get_str(fs, "preview_failure_reason") {
        Some(v) => match PreviewCreateOrderFailureReason::from_wire(v.as_str()) {
            Some(t) => t,
            None => { return None },
        },
        None => { return None },
    };
    let new_order_failure_reason = match get_str(fs, "new_order_failure_reason") {
        Some(v) => match CreateOrderFailureReason::from_wire(v.as_str()) {
            Some(t) => t,
            None => { return None },
        },
        None => { return None },
    };
    Some(
        OrderErrorResponse {
            error,
            message,
            error_details,
            preview_failure_reason,
            new_order_failure_reason,
        },
    )
}

/// The response to a create-order request.
#[derive(Debug, PartialEq)]
pub struct CreateOrderResponse {
    pub success: bool,
    pub failure_reason: CreateOrderFailureReason,
    pub order_id: String,
    pub success_response: Option<OrderSuccessResponse>,
    pub error_response: Option<OrderErrorResponse>,
    pub order_configuration: OrderConfiguration,
}

/// The mathematical content of a [`CreateOrderResponse`].
pub struct CreateOrderResponseView {
    pub success: bool,
    pub failure_reason: CreateOrderFailureReason,
    pub order_id: Seq<char>,
    pub success_response: Option<OrderSuccessResponseView>,
    pub error_response: Option<OrderErrorResponseView>,
    pub order_configuration: OrderConfigurationView,
}

impl View for CreateOrderResponse {
    type V = CreateOrderResponseView;

    open spec fn view(&self) -> CreateOrderResponseView {
        CreateOrderResponseView {
            success: self.success,
            failure_reason: self.failure_reason,
            order_id: self.order_id@,
            success_response: match self.success_response {
                Some(v) => Some(v@),
                None => None,
            },
            error_response: match self.error_response {
                Some(v) => Some(v@),
                None => None,
            },
            order_configuration: self.order_configuration@,
        }
    }
}

/// The success half of an optional member.
pub open spec fn opt_order_success_of(o: Option<Seq<(String, JsonValue)>>) -> Option<
    Option<OrderSuccessResponseView>,
> {
    match o {
        None => Some(None),
        Some(gs) => match order_success_of_fields(gs) {
            Some(v) => Some(Some(v)),
            None => None,
        },
    }
}

/// The error half of an optional member.
pub open spec fn opt_order_error_of(o: Option<Seq<(String, JsonValue)>>) -> Option<
    Option<OrderErrorResponseView>,
> {
    match o {
        None => Some(None),
        Some(gs) => match order_error_of_fields(gs) {
            Some(v) => Some(Some(v)),
            None => None,
        },
    }
}

impl FromJson for CreateOrderResponse {
    open spec fn from_json_spec(j: JsonValue) -> Option<CreateOrderResponseView> {
        match j {
            JsonValue::Object(fs) => {
                let success = bool_field(fs@, "success"@);
                let failure_reason = str_field(fs@, "failure_reason"@);
                let order_id = str_field(fs@, "order_id"@);
                let success_response = opt_obj_field(fs@, "success_response"@);
                let error_response = opt_obj_field(fs@, "error_response"@);
                let config = obj_field(fs@, "order_configuration"@);
                if success is None || failure_reason is None
                    || CreateOrderFailureReason::from_wire_spec(failure_reason->0) is None
                    || order_id is None || success_response is None || opt_order_success_of(
                    success_response->0,
                ) is None || error_response is None || opt_order_error_of(
                    error_response->0,
                ) is None || config is None || order_config_of_fields(config->0) is None {
                    None
                } else {
                    Some(
                        CreateOrderResponseView {
                            success: success->0,
                            failure_reason: CreateOrderFailureReason::from_wire_spec(
                                failure_reason->0,
                            )->0,
                            order_id: order_id->0,
                            success_response: opt_order_success_of(success_response->0)->0,
                            error_response: opt_order_error_of(error_response->0)->0,
                            order_configuration: order_config_of_fields(config->0)->0,
                        },
                    )
                }
            },
            _ => None,
        }
    }

    fn from_json(j: &JsonValue) -> (r: Option<CreateOrderResponse>) {
        let fs = match j {
            JsonValue::Object(fs) => fs,
            _ => { return None },
        };
        let success = match get_bool(fs, "success") {
            Some(v) => v,
            None => { return None },
        };
        let failure_reason = match get_str(fs, "failure_reason") {
            Some(v) => match CreateOrderFailureReason::from_wire(v.as_str()) {
                Some(t) => t,
                None => { return None },
            },
            None => { return None },
        };
        let order_id = match get_str(fs, "order_id") {
            Some(v) => v.clone(),
            None => { return None },
        };
        let success_response = match get_opt_obj(fs, "success_response") {
            Some(Some(gs)) => match order_success_from_fields(gs) {
                Some(v) => Some(v),
                None => { return None },
            },
            Some(None) => None,
            None => { return None },
        };
        let error_response = match get_opt_obj(fs, "error_response") {
            Some(Some(gs)) => match order_error_from_fields(gs) {
                Some(v) => Some(v),
                None => { return None },
            },
            Some(None) => None,
            None => { return None },
        };
        let order_configuration = match get_obj(fs, "order_configuration") {
            Some(gs) => match OrderConfiguration::from_json_fields(gs) {
                Some(c) => c,
                None => { return None },
            },
            None => { return None },
        };
        Some(
            CreateOrderResponse {
                success,
                failure_reason,
                order_id,
                success_response,
                error_response,
                order_configuration,
            },
        )
    }
}

/// The response to one cancel request.
#[derive(Debug, PartialEq)]
pub struct CancelOrderResponse {
    pub success: bool,
    pub failure_reason: Option<CancelOrderFailureReason>,
    pub order_id: String,
}

/// The mathematical content of a [`CancelOrderResponse`].
pub struct CancelOrderResponseView {
    pub success: bool,
    pub failure_reason: Option<CancelOrderFailureReason>,
    pub order_id: Seq<char>,
}

impl View for CancelOrderResponse {
    type V = CancelOrderResponseView;

    open spec fn view(&self) -> CancelOrderResponseView {
        CancelOrderResponseView {
            success: self.success,
            failure_reason: self.failure_reason,
            order_id: self.order_id@,
        }
    }
}

/// The cancel result carried by an object's members.  The failure
/// reason, where present, must be a known wire name.
pub open spec fn cancel_result_of_fields(fs: Seq<(String, JsonValue)>) -> Option<
    CancelOrderResponseView,
> {
    let success = bool_field(fs, "success"@);
    let failure_reason = opt_str_field(fs, "failure_reason"@);
    let order_id = str_field(fs, "order_id"@);
    if success is None || failure_reason is None || order_id is None {
        None
    } else {
        match failure_reason->0 {
            None => Some(
                CancelOrderResponseView {
                    success: success->0,
                    failure_reason: None,
                    order_id: order_id->0,
                },
            ),
            Some(w) => match CancelOrderFailureReason::from_wire_spec(w) {
                Some(t) => Some(
                    CancelOrderResponseView {
                        success: success->0,
                        failure_reason: Some(t),
                        order_id: order_id->0,
                    },
                ),
                None => None,
            },
        }
    }
}

impl FromJson for CancelOrderResponse {
    open spec fn from_json_spec(j: JsonValue) -> Option<CancelOrderResponseView> {
        match j {
            JsonValue::Object(fs) => cancel_result_of_fields(fs@),
            _ => None,
        }
    }

    fn from_json(j: &JsonValue) -> (r: Option<CancelOrderResponse>) {
        let fs = match j {
            JsonValue::Object(fs) => fs,
            _ => { return None },
        };
        let success = match get_bool(fs, "success") {
            Some(v) => v,
            None => { return None },
        };
        let failure_reason = match get_opt_str(fs, "failure_reason") {
            Some(Some(w)) => match CancelOrderFailureReason::from_wire(w.as_str()) {
                Some(t) => Some(t),
                None => { return None },
            },
            Some(None) => None,
            None => { return None },
        };
        let order_id = match get_str(fs, "order_id") {
            Some(v) => v.clone(),
            None => { return None },
        };
        Some(CancelOrderResponse { success, failure_reason, order_id })
    }
}

/// The envelope wrapping the results of a batch cancel.
#[derive(Debug, PartialEq)]
pub struct CancelOrdersResponse {
    pub results: Vec<CancelOrderResponse>,
}

/// The mathematical content of a [`CancelOrdersResponse`].
pub struct CancelOrdersResponseView {
    pub results: Seq<CancelOrderResponseView>,
}

impl View for CancelOrdersResponse {
    type V = CancelOrdersResponseView;

    open spec fn view(&self) -> CancelOrdersResponseView {
        CancelOrdersResponseView {
            results: self.results@.map_values(|c: CancelOrderResponse| c@),
        }
    }
}

impl FromJson for CancelOrdersResponse {
    open spec fn from_json_spec(j: JsonValue) -> Option<CancelOrdersResponseView> {
        match j {
            JsonValue::Object(fs) => match arr_field(fs@, "results"@) {
                Some(xs) => match seq_of::<CancelOrderResponse>(xs) {
                    Some(rs) => Some(CancelOrdersResponseView { results: rs }),
                    None => None,
                },
                None => None,
            },
            _ => None,
        }
    }

    fn from_json(j: &JsonValue) -> (r: Option<CancelOrdersResponse>) {
        let fs = match j {
            JsonValue::Object(fs) => fs,
            _ => { return None },
        };
        match get_arr(fs, "results") {
            Some(xs) => match vec_from_json::<CancelOrderResponse>(xs) {
                Some(results) => Some(CancelOrdersResponse { results }),
                None => None,
            },
            None => None,
        }
    }
}
impl FillsResponse {
    /// Normalizes this envelope into one page of the pagination engine.
    /// This family exposes no flag, so the flag is set false and the
    /// empty-cursor convention alone decides continuation.
    pub fn into_page(self) -> (r: crate::pagination::PageData<Fill>)
        ensures
            r.items == self.fills,
            r.has_next == false,
            r.cursor == self.cursor,
    {
        crate::pagination::PageData { items: self.fills, has_next: false, cursor: self.cursor }
    }
}

// ---------------------------------------------------------------------
// Assembling new orders, and framing them as JSON.
// ---------------------------------------------------------------------

/// An optional string as JSON: a string literal or `null`.
pub open spec fn jopt_str(o: Option<Seq<char>>) -> Seq<char> {
    match o {
        Some(s) => jstr(s),
        None => "null"@,
    }
}

/// An optional boolean as JSON.
pub open spec fn jopt_bool(o: Option<bool>) -> Seq<char> {
    match o {
        Some(true) => "true"@,
        Some(false) => "false"@,
        None => "null"@,
    }
}

/// The JSON body of a market order.
pub open spec fn market_json(m: MarketView) -> Seq<char> {
    "{\"quote_size\":"@ + jopt_str(m.quote_size) + ",\"base_size\":"@ + jopt_str(m.base_size)
        + "}"@
}

/// The JSON body of a limit order.
pub open spec fn limit_json(l: LimitView) -> Seq<char> {
    "{\"base_size\":"@ + jstr(l.base_size) + ",\"limit_price\":"@ + jstr(l.limit_price)
        + ",\"end_time\":"@ + jopt_str(l.end_time) + ",\"post_only\":"@ + jopt_bool(l.post_only)
        + "}"@
}

/// The JSON body of a stop-limit order.
pub open spec fn stop_limit_json(l: StopLimitView) -> Seq<char> {
    "{\"base_size\":"@ + jstr(l.base_size) + ",\"limit_price\":"@ + jstr(l.limit_price)
        + ",\"stop_price\":"@ + jstr(l.stop_price) + ",\"stop_direction\":"@ + jstr(
        l.stop_direction.wire_spec(),
    ) + ",\"end_time\":"@ + jopt_str(l.end_time) + "}"@
}

/// An optional market order as JSON.
pub open spec fn jopt_market(o: Option<MarketView>) -> Seq<char> {
    match o {
        Some(m) => market_json(m),
        None => "null"@,
    }
}

/// An optional limit order as JSON.
pub open spec fn jopt_limit(o: Option<LimitView>) -> Seq<char> {
    match o {
        Some(l) => limit_json(l),
        None => "null"@,
    }
}

/// An optional stop-limit order as JSON.
pub open spec fn jopt_stop_limit(o: Option<StopLimitView>) -> Seq<char> {
    match o {
        Some(l) => stop_limit_json(l),
        None => "null"@,
    }
}

/// The JSON body of an order configuration, every member written out,
/// absent variants as `null`.
pub open spec fn order_config_json(c: OrderConfigurationView) -> Seq<char> {
    "{\"market_market_ioc\":"@ + jopt_market(c.market_market_ioc) + ",\"limit_limit_gtc\":"@
        + jopt_limit(c.limit_limit_gtc) + ",\"limit_limit_gtd\":"@ + jopt_limit(
        c.limit_limit_gtd,
    ) + ",\"stop_limit_stop_limit_gtc\":"@ + jopt_stop_limit(c.stop_limit_stop_limit_gtc)
        + ",\"stop_limit_stop_limit_gtd\":"@ + jopt_stop_limit(c.stop_limit_stop_limit_gtd)
        + "}"@
}

/// The JSON body of a new order.
pub open spec fn order_to_send_json(o: OrderToSendView) -> Seq<char> {
    "{\"client_order_id\":"@ + jstr(o.client_order_id) + ",\"product_id\":"@ + jstr(o.product_id)
        + ",\"side\":"@ + jstr(o.side.wire_spec()) + ",\"order_configuration\":"@
        + order_config_json(o.order_configuration) + "}"@
}

fn append_opt_jstr(out: &mut String, o: &Option<String>)
    ensures
        final(out)@ == old(out)@ + jopt_str(opt_view(*o)),
{
    match o {
        Some(s) => {
            append_jstr(out, s.as_str());
        },
        None => {
            proof {
                reveal_strlit("null");
            }
            out.append("null");
        },
    }
}

fn append_opt_bool(out: &mut String, o: &Option<bool>)
    ensures
        final(out)@ == old(out)@ + jopt_bool(*o),
{
    match o {
        Some(true) => {
            proof {
                reveal_strlit("true");
            }
            out.append("true");
        },
        Some(false) => {
            proof {
                reveal_strlit("false");
            }
            out.append("false");
        },
        None => {
            proof {
                reveal_strlit("null");
            }
            out.append("null");
        },
    }
}

fn append_market(out: &mut String, m: &Market)
    ensures
        final(out)@ == old(out)@ + market_json(m@),
{
    out.append("{\"quote_size\":");
    append_opt_jstr(out, &m.quote_size);
    out.append(",\"base_size\":");
    append_opt_jstr(out, &m.base_size);
    out.append("}");
    proof {
        assert(out@ =~= old(out)@ + market_json(m@));
    }
}

fn append_limit(out: &mut String, l: &Limit)
    ensures
        final(out)@ == old(out)@ + limit_json(l@),
{
    out.append("{\"base_size\":");
    append_jstr(out, l.base_size.as_str());
    out.append(",\"limit_price\":");
    append_jstr(out, l.limit_price.as_str());
    out.append(",\"end_time\":");
    append_opt_jstr(out, &l.end_time);
    out.append(",\"post_only\":");
    append_opt_bool(out, &l.post_only);
    out.append("}");
    proof {
        assert(out@ =~= old(out)@ + limit_json(l@));
    }
}

fn append_stop_limit(out: &mut String, l: &StopLimit)
    ensures
        final(out)@ == old(out)@ + stop_limit_json(l@),
{
    out.append("{\"base_size\":");
    append_jstr(out, l.base_size.as_str());
    out.append(",\"limit_price\":");
    append_jstr(out, l.limit_price.as_str());
    out.append(",\"stop_price\":");
    append_jstr(out, l.stop_price.as_str());
    out.append(",\"stop_direction\":");
    append_jstr(out, l.stop_direction.wire_name());
    out.append(",\"end_time\":");
    append_opt_jstr(out, &l.end_time);
    out.append("}");
    proof {
        assert(out@ =~= old(out)@ + stop_limit_json(l@));
    }
}

fn append_opt_market(out: &mut String, o: &Option<Market>)
    ensures
        final(out)@ == old(out)@ + jopt_market(match o {
            Some(m) => Some(m@),
            None => None,
        }),
{
    match o {
        Some(m) => append_market(out, m),
        None => {
            proof {
                reveal_strlit("null");
            }
            out.append("null");
        },
    }
}

fn append_opt_limit(out: &mut String, o: &Option<Limit>)
    ensures
        final(out)@ == old(out)@ + jopt_limit(match o {
            Some(l) => Some(l@),
            None => None,
        }),
{
    match o {
        Some(l) => append_limit(out, l),
        None => {
            proof {
                reveal_strlit("null");
            }
            out.append("null");
        },
    }
}

fn append_opt_stop_limit(out: &mut String, o: &Option<StopLimit>)
    ensures
        final(out)@ == old(out)@ + jopt_stop_limit(match o {
            Some(l) => Some(l@),
            None => None,
        }),
{
    match o {
        Some(l) => append_stop_limit(out, l),
        None => {
            proof {
                reveal_strlit("null");
            }
            out.append("null");
        },
    }
}

fn append_config(out: &mut String, c: &OrderConfiguration)
    ensures
        final(out)@ == old(out)@ + order_config_json(c@),
{
    let ghost base = old(out)@;
    out.append("{\"market_market_ioc\":");
    append_opt_market(out, &c.market_market_ioc);
    let ghost p1 = "{\"market_market_ioc\":"@ + jopt_market(c@.market_market_ioc);
    proof {
        lemma_concat_associative(base, "{\"market_market_ioc\":"@, jopt_market(c@.market_market_ioc));
        assert(out@ == base + p1);
    }
    out.append(",\"limit_limit_gtc\":");
    append_opt_limit(out, &c.limit_limit_gtc);
    let ghost p2 = p1 + ",\"limit_limit_gtc\":"@ + jopt_limit(c@.limit_limit_gtc);
    proof {
        lemma_concat_associative(base, p1, ",\"limit_limit_gtc\":"@);
        lemma_concat_associative(base, p1 + ",\"limit_limit_gtc\":"@, jopt_limit(c@.limit_limit_gtc));
        assert(out@ == base + p2);
    }
    out.append(",\"limit_limit_gtd\":");
    append_opt_limit(out, &c.limit_limit_gtd);
    let ghost p3 = p2 + ",\"limit_limit_gtd\":"@ + jopt_limit(c@.limit_limit_gtd);
    proof {
        lemma_concat_associative(base, p2, ",\"limit_limit_gtd\":"@);
        lemma_concat_associative(base, p2 + ",\"limit_limit_gtd\":"@, jopt_limit(c@.limit_limit_gtd));
        assert(out@ == base + p3);
    }
    out.append(",\"stop_limit_stop_limit_gtc\":");
    append_opt_stop_limit(out, &c.stop_limit_stop_limit_gtc);
    let ghost p4 = p3 + ",\"stop_limit_stop_limit_gtc\":"@ + jopt_stop_limit(
        c@.stop_limit_stop_limit_gtc,
    );
    proof {
        lemma_concat_associative(base, p3, ",\"stop_limit_stop_limit_gtc\":"@);
        lemma_concat_associative(
            base,
            p3 + ",\"stop_limit_stop_limit_gtc\":"@,
            jopt_stop_limit(c@.stop_limit_stop_limit_gtc),
        );
        assert(out@ == base + p4);
    }
    out.append(",\"stop_limit_stop_limit_gtd\":");
    append_opt_stop_limit(out, &c.stop_limit_stop_limit_gtd);
    let ghost p5 = p4 + ",\"stop_limit_stop_limit_gtd\":"@ + jopt_stop_limit(
        c@.stop_limit_stop_limit_gtd,
    );
    proof {
        lemma_concat_associative(base, p4, ",\"stop_limit_stop_limit_gtd\":"@);
        lemma_concat_associative(
            base,
            p4 + ",\"stop_limit_stop_limit_gtd\":"@,
            jopt_stop_limit(c@.stop_limit_stop_limit_gtd),
        );
        assert(out@ == base + p5);
    }
    out.append("}");
    proof {
        lemma_concat_associative(base, p5, "}"@);
        assert(p5 + "}"@ == order_config_json(c@));
    }
}

/// A new order, ready to be framed as the body of a create-order POST.
#[derive(Debug, PartialEq)]
pub struct OrderToSend {
    client_order_id: String,
    product_id: String,
    side: OrderSide,
    order_configuration: OrderConfiguration,
}

/// The mathematical content of an [`OrderToSend`].
pub struct OrderToSendView {
    pub client_order_id: Seq<char>,
    pub product_id: Seq<char>,
    pub side: Side,
    pub order_configuration: OrderConfigurationView,
}

impl View for OrderToSend {
    type V = OrderToSendView;

    closed spec fn view(&self) -> OrderToSendView {
        OrderToSendView {
            client_order_id: self.client_order_id@,
            product_id: self.product_id@,
            side: self.side,
            order_configuration: self.order_configuration@,
        }
    }
}

impl OrderToSend {
    /// Frames this order as the JSON body of a create-order POST: every
    /// member in declaration order, decimals as strings, absent members
    /// as `null`.
    pub fn to_json_text(&self) -> (r: String)
        ensures
            r@ == order_to_send_json(self@),
    {
        let mut out = String::new();
        out.append("{\"client_order_id\":");
        append_jstr(&mut out, self.client_order_id.as_str());
        out.append(",\"product_id\":");
        append_jstr(&mut out, self.product_id.as_str());
        out.append(",\"side\":");
        append_jstr(&mut out, self.side.wire_name());
        out.append(",\"order_configuration\":");
        append_config(&mut out, &self.order_configuration);
        out.append("}");
        proof {
            assert(out@ =~= order_to_send_json(self@));
        }
        out
    }
}

/// Whether an order's side can be sent: the service only takes buys and
/// sells.
pub open spec fn tradable_side(side: Side) -> bool {
    side == Side::Buy || side == Side::Sell
}

/// The configuration of a market order alone: quote size for buys, base
/// size for sells.
pub open spec fn market_only_config(side: Side, size: Seq<char>) -> OrderConfigurationView {
    OrderConfigurationView {
        market_market_ioc: Some(
            MarketView {
                quote_size: if side == Side::Buy {
                    Some(size)
                } else {
                    None
                },
                base_size: if side == Side::Buy {
                    None
                } else {
                    Some(size)
                },
            },
        ),
        limit_limit_gtc: None,
        limit_limit_gtd: None,
        stop_limit_stop_limit_gtc: None,
        stop_limit_stop_limit_gtd: None,
    }
}

/// Builds a market order: `side` the given product for `order_size` —
/// quote currency for buys, base currency for sells.  The order carries
/// a fresh client order id; it is not sent.
pub fn create_market_order(product_id: &str, side: OrderSide, order_size: &str) -> (r: Result<
    OrderToSend,
    CbError,
>)
    ensures
        decimal_parses(order_size@) && tradable_side(side) ==> (r matches Ok(o)
            && o@.product_id == product_id@ && o@.side == side && o@.client_order_id.len() == 36 && uuid_parses(o@.client_order_id)
            && o@.order_configuration == market_only_config(side, order_size@)),
        !(decimal_parses(order_size@) && tradable_side(side)) ==> (r matches Err(e)
            && e@ matches CbErrorView::InvalidOrder { .. }),
{
    if !decimal_ok(order_size) {
        return Err(
            CbError::InvalidOrder {
                detail: String::from_str("the order size is not a decimal number"),
            },
        );
    }
    let (quote_size, base_size) = match side {
        OrderSide::Buy => (Some(String::from_str(order_size)), None),
        OrderSide::Sell => (None, Some(String::from_str(order_size))),
        OrderSide::UnknownOrderSide => {
            return Err(
                CbError::InvalidOrder {
                    detail: String::from_str("the side of an order must be buy or sell"),
                },
            );
        },
    };
    Ok(
        OrderToSend {
            client_order_id: new_uuid_v4_string(),
            product_id: String::from_str(product_id),
            side,
            order_configuration: OrderConfiguration {
                market_market_ioc: Some(Market { quote_size, base_size }),
                limit_limit_gtc: None,
                limit_limit_gtd: None,
                stop_limit_stop_limit_gtc: None,
                stop_limit_stop_limit_gtd: None,
            },
        },
    )
}

/// The configuration of a good-til-cancelled limit order alone.
pub open spec fn limit_gtc_config(base_size: Seq<char>, limit_price: Seq<char>, post_only: bool)
    -> OrderConfigurationView {
    OrderConfigurationView {
        market_market_ioc: None,
        limit_limit_gtc: Some(
            LimitView { base_size, limit_price, end_time: None, post_only: Some(post_only) },
        ),
        limit_limit_gtd: None,
        stop_limit_stop_limit_gtc: None,
        stop_limit_stop_limit_gtd: None,
    }
}

/// Builds a good-til-cancelled limit order for `base_size` at
/// `limit_price`.  The order carries a fresh client order id; it is not
/// sent.
pub fn create_limit_order_good_til_canceled(
    product_id: &str,
    side: OrderSide,
    base_size: &str,
    limit_price: &str,
    post_only: bool,
) -> (r: Result<OrderToSend, CbError>)
    ensures
        tradable_side(side) && decimal_parses(base_size@) && decimal_parses(limit_price@) ==> (
        r matches Ok(o) && o@.product_id == product_id@ && o@.side == side
            && o@.client_order_id.len() == 36 && uuid_parses(o@.client_order_id) && o@.order_configuration == limit_gtc_config(
            base_size@,
            limit_price@,
            post_only,
        )),
        !(tradable_side(side) && decimal_parses(base_size@) && decimal_parses(limit_price@)) ==> (
        r matches Err(e) && e@ matches CbErrorView::InvalidOrder { .. }),
{
    if !(matches!(side, OrderSide::Buy) || matches!(side, OrderSide::Sell)) {
        return Err(
            CbError::InvalidOrder {
                detail: String::from_str("the side of an order must be buy or sell"),
            },
        );
    }
    if !decimal_ok(base_size) || !decimal_ok(limit_price) {
        return Err(
            CbError::InvalidOrder {
                detail: String::from_str("sizes and prices must be decimal numbers"),
            },
        );
    }
    Ok(
        OrderToSend {
            client_order_id: new_uuid_v4_string(),
            product_id: String::from_str(product_id),
            side,
            order_configuration: OrderConfiguration {
                market_market_ioc: None,
                limit_limit_gtc: Some(
                    Limit {
                        base_size: String::from_str(base_size),
                        limit_price: String::from_str(limit_price),
                        end_time: None,
                        post_only: Some(post_only),
                    },
                ),
                limit_limit_gtd: None,
                stop_limit_stop_limit_gtc: None,
                stop_limit_stop_limit_gtd: None,
            },
        },
    )
}

/// The configuration of a good-til-date limit order alone.
pub open spec fn limit_gtd_config(
    base_size: Seq<char>,
    limit_price: Seq<char>,
    end_time: int,
    post_only: bool,
) -> OrderConfigurationView {
    OrderConfigurationView {
        market_market_ioc: None,
        limit_limit_gtc: None,
        limit_limit_gtd: Some(
            LimitView {
                base_size,
                limit_price,
                end_time: Some(rfc3339_utc_of(end_time)),
                post_only: Some(post_only),
            },
        ),
        stop_limit_stop_limit_gtc: None,
        stop_limit_stop_limit_gtd: None,
    }
}

/// Builds a good-til-date limit order for `base_size` at `limit_price`,
/// expiring at `end_time`.  The order carries a fresh client order id;
/// it is not sent.
pub fn create_limit_order_good_til_date(
    product_id: &str,
    side: OrderSide,
    base_size: &str,
    limit_price: &str,
    end_time: UtcTimestamp,
    post_only: bool,
) -> (r: Result<OrderToSend, CbError>)
    ensures
        tradable_side(side) && decimal_parses(base_size@) && decimal_parses(limit_price@) ==> (
        r matches Ok(o) && o@.product_id == product_id@ && o@.side == side
            && o@.client_order_id.len() == 36 && uuid_parses(o@.client_order_id) && o@.order_configuration == limit_gtd_config(
            base_size@,
            limit_price@,
            end_time.secs as int,
            post_only,
        )),
        !(tradable_side(side) && decimal_parses(base_size@) && decimal_parses(limit_price@)) ==> (
        r matches Err(e) && e@ matches CbErrorView::InvalidOrder { .. }),
{
    if !(matches!(side, OrderSide::Buy) || matches!(side, OrderSide::Sell)) {
        return Err(
            CbError::InvalidOrder {
                detail: String::from_str("the side of an order must be buy or sell"),
            },
        );
    }
    if !decimal_ok(base_size) || !decimal_ok(limit_price) {
        return Err(
            CbError::InvalidOrder {
                detail: String::from_str("sizes and prices must be decimal numbers"),
            },
        );
    }
    Ok(
        OrderToSend {
            client_order_id: new_uuid_v4_string(),
            product_id: String::from_str(product_id),
            side,
            order_configuration: OrderConfiguration {
                market_market_ioc: None,
                limit_limit_gtc: None,
                limit_limit_gtd: Some(
                    Limit {
                        base_size: String::from_str(base_size),
                        limit_price: String::from_str(limit_price),
                        end_time: Some(end_time.to_rfc3339()),
                        post_only: Some(post_only),
                    },
                ),
                stop_limit_stop_limit_gtc: None,
                stop_limit_stop_limit_gtd: None,
            },
        },
    )
}

/// The configuration of a good-til-cancelled stop-limit order alone.
pub open spec fn stop_limit_gtc_config(
    base_size: Seq<char>,
    limit_price: Seq<char>,
    stop_price: Seq<char>,
    stop_direction: StopDirection,
) -> OrderConfigurationView {
    OrderConfigurationView {
        market_market_ioc: None,
        limit_limit_gtc: None,
        limit_limit_gtd: None,
        stop_limit_stop_limit_gtc: Some(
            StopLimitView { base_size, limit_price, stop_price, stop_direction, end_time: None },
        ),
        stop_limit_stop_limit_gtd: None,
    }
}

/// Builds a good-til-cancelled stop-limit order.  The order carries a
/// fresh client order id; it is not sent.
pub fn create_stop_limit_order_good_til_canceled(
    product_id: &str,
    side: OrderSide,
    base_size: &str,
    limit_price: &str,
    stop_price: &str,
    stop_direction: StopDirection,
) -> (r: Result<OrderToSend, CbError>)
    ensures
        tradable_side(side) && decimal_parses(base_size@) && decimal_parses(limit_price@)
            && decimal_parses(stop_price@) ==> (r matches Ok(o) && o@.product_id == product_id@
            && o@.side == side && o@.client_order_id.len() == 36 && uuid_parses(o@.client_order_id) && o@.order_configuration
            == stop_limit_gtc_config(base_size@, limit_price@, stop_price@, stop_direction)),
        !(tradable_side(side) && decimal_parses(base_size@) && decimal_parses(limit_price@)
            && decimal_parses(stop_price@)) ==> (r matches Err(e) && e@ matches
        CbErrorView::InvalidOrder { .. }),
{
    if !(matches!(side, OrderSide::Buy) || matches!(side, OrderSide::Sell)) {
        return Err(
            CbError::InvalidOrder {
                detail: String::from_str("the side of an order must be buy or sell"),
            },
        );
    }
    if !decimal_ok(base_size) || !decimal_ok(limit_price) || !decimal_ok(stop_price) {
        return Err(
            CbError::InvalidOrder {
                detail: String::from_str("sizes and prices must be decimal numbers"),
            },
        );
    }
    Ok(
        OrderToSend {
            client_order_id: new_uuid_v4_string(),
            product_id: String::from_str(product_id),
            side,
            order_configuration: OrderConfiguration {
                market_market_ioc: None,
                limit_limit_gtc: None,
                limit_limit_gtd: None,
                stop_limit_stop_limit_gtc: Some(
                    StopLimit {
                        base_size: String::from_str(base_size),
                        limit_price: String::from_str(limit_price),
                        stop_price: String::from_str(stop_price),
                        stop_direction,
                        end_time: None,
                    },
                ),
                stop_limit_stop_limit_gtd: None,
            },
        },
    )
}

/// The configuration of a good-til-date stop-limit order alone.
pub open spec fn stop_limit_gtd_config(
    base_size: Seq<char>,
    limit_price: Seq<char>,
    stop_price: Seq<char>,
    end_time: int,
    stop_direction: StopDirection,
) -> OrderConfigurationView {
    OrderConfigurationView {
        market_market_ioc: None,
        limit_limit_gtc: None,
        limit_limit_gtd: None,
        stop_limit_stop_limit_gtc: None,
        stop_limit_stop_limit_gtd: Some(
            StopLimitView {
                base_size,
                limit_price,
                stop_price,
                stop_direction,
                end_time: Some(rfc3339_utc_of(end_time)),
            },
        ),
    }
}

/// Builds a good-til-date stop-limit order, expiring at `end_time`.
/// The order carries a fresh client order id; it is not sent.
pub fn create_stop_limit_order_good_til_date(
    product_id: &str,
    side: OrderSide,
    base_size: &str,
    limit_price: &str,
    stop_price: &str,
    end_time: UtcTimestamp,
    stop_direction: StopDirection,
) -> (r: Result<OrderToSend, CbError>)
    ensures
        tradable_side(side) && decimal_parses(base_size@) && decimal_parses(limit_price@)
            && decimal_parses(stop_price@) ==> (r matches Ok(o) && o@.product_id == product_id@
            && o@.side == side && o@.client_order_id.len() == 36 && uuid_parses(o@.client_order_id) && o@.order_configuration
            == stop_limit_gtd_config(
            base_size@,
            limit_price@,
            stop_price@,
            end_time.secs as int,
            stop_direction,
        )),
        !(tradable_side(side) && decimal_parses(base_size@) && decimal_parses(limit_price@)
            && decimal_parses(stop_price@)) ==> (r matches Err(e) && e@ matches
        CbErrorView::InvalidOrder { .. }),
{
    if !(matches!(side, OrderSide::Buy) || matches!(side, OrderSide::Sell)) {
        return Err(
            CbError::InvalidOrder {
                detail: String::from_str("the side of an order must be buy or sell"),
            },
        );
    }
    if !decimal_ok(base_size) || !decimal_ok(limit_price) || !decimal_ok(stop_price) {
        return Err(
            CbError::InvalidOrder {
                detail: String::from_str("sizes and prices must be decimal numbers"),
            },
        );
    }
    Ok(
        OrderToSend {
            client_order_id: new_uuid_v4_string(),
            product_id: String::from_str(product_id),
            side,
            order_configuration: OrderConfiguration {
                market_market_ioc: None,
                limit_limit_gtc: None,
                limit_limit_gtd: None,
                stop_limit_stop_limit_gtc: None,
                stop_limit_stop_limit_gtd: Some(
                    StopLimit {
                        base_size: String::from_str(base_size),
                        limit_price: String::from_str(limit_price),
                        stop_price: String::from_str(stop_price),
                        stop_direction,
                        end_time: Some(end_time.to_rfc3339()),
                    },
                ),
            },
        },
    )
}

/// The JSON body of a batch-cancel request.
pub open spec fn cancel_body_json(ids: Seq<Seq<char>>) -> Seq<char> {
    "{\"order_ids\":["@ + jstr_list(ids) + "]}"@
}

/// A comma-separated list of JSON string literals.
pub open spec fn jstr_list(ids: Seq<Seq<char>>) -> Seq<char>
    decreases ids.len(),
{
    if ids.len() == 0 {
        Seq::empty()
    } else if ids.len() == 1 {
        jstr(ids[0])
    } else {
        jstr_list(ids.drop_last()) + ","@ + jstr(ids.last())
    }
}

/// Frames a batch-cancel request body listing the given order ids.
pub fn cancel_order_body(order_ids: &Vec<String>) -> (r: String)
    ensures
        r@ == cancel_body_json(order_ids@.map_values(|s: String| s@)),
{
    let ghost ids = order_ids@.map_values(|s: String| s@);
    let mut out = String::new();
    out.append("{\"order_ids\":[");
    let ghost head = out@;
    let mut i: usize = 0;
    proof {
        assert(ids.take(0) =~= Seq::<Seq<char>>::empty());
    }
    while i < order_ids.len()
        invariant
            i <= order_ids@.len(),
            ids == order_ids@.map_values(|s: String| s@),
            head == "{\"order_ids\":["@,
            out@ == head + jstr_list(ids.take(i as int)),
        decreases order_ids@.len() - i,
    {
        if i > 0 {
            proof {
                reveal_strlit(",");
            }
            out.append(",");
        }
        append_jstr(&mut out, order_ids[i].as_str());
        i += 1;
        proof {
            assert(ids.take(i as int).drop_last() =~= ids.take(i - 1));
            assert(ids.take(i as int).last() == ids[i - 1]);
            assert(out@ =~= head + jstr_list(ids.take(i as int)));
        }
    }
    out.append("]}");
    proof {
        assert(ids.take(order_ids@.len() as int) =~= ids);
        assert(out@ =~= cancel_body_json(ids));
    }
    out
}

} // verus!

//! Fees: the fee-tier, tax and transactions-summary model and decoders.
//! Dollar amounts arrive as JSON numbers and are carried as their
//! decimal tokens; tier bounds arrive as strings with thousands
//! separators and stay strings.

use vstd::prelude::*;

use crate::json::{decimal_field, get_decimal, get_num, get_obj, get_opt_obj, get_str,
    num_field, obj_field, opt_obj_field, str_field, FromJson, JsonValue};
use crate::strutil::str_eq;

verus! {

/// One pricing tier: bounds in notional volume and the fee rates that
/// apply inside it.
#[derive(Debug, PartialEq)]
pub struct FeeTier {
    /// E.g. `"<$10k"`; determined by notional (USD) volume.
    pub pricing_tier: String,
    /// Lower bound (inclusive); uses a comma for thousands, so it stays
    /// text.
    pub usd_from: String,
    /// Upper bound (exclusive); same format.
    pub usd_to: String,
    pub taker_fee_rate: String,
    pub maker_fee_rate: String,
}

/// The mathematical content of a [`FeeTier`].
pub struct FeeTierView {
    pub pricing_tier: Seq<char>,
    pub usd_from: Seq<char>,
    pub usd_to: Seq<char>,
    pub taker_fee_rate: Seq<char>,
    pub maker_fee_rate: Seq<char>,
}

impl View for FeeTier {
    type V = FeeTierView;

    open spec fn view(&self) -> FeeTierView {
        FeeTierView {
            pricing_tier: self.pricing_tier@,
            usd_from: self.usd_from@,
            usd_to: self.usd_to@,
            taker_fee_rate: self.taker_fee_rate@,
            maker_fee_rate: self.maker_fee_rate@,
        }
    }
}

/// The fee tier carried by an object's members.
pub open spec fn fee_tier_of_fields(fs: Seq<(String, JsonValue)>) -> Option<FeeTierView> {
    let pricing_tier = str_field(fs, "pricing_tier"@);
    let usd_from = str_field(fs, "usd_from"@);
    let usd_to = str_field(fs, "usd_to"@);
    let taker = decimal_field(fs, "taker_fee_rate"@);
    let maker = decimal_field(fs, "maker_fee_rate"@);
    if pricing_tier is None || usd_from is None || usd_to is None || taker is None
        || maker is None {
        None
    } else {
        Some(
            FeeTierView {
                pricing_tier: pricing_tier->0,
                usd_from: usd_from->0,
                usd_to: usd_to->0,
                taker_fee_rate: taker->0,
                maker_fee_rate: maker->0,
            },
        )
    }
}

impl FromJson for FeeTier {
    open spec fn from_json_spec(j: JsonValue) -> Option<FeeTierView> {
        match j {
            JsonValue::Object(fs) => fee_tier_of_fields(fs@),
            _ => None,
        }
    }

    fn from_json(j: &JsonValue) -> (r: Option<FeeTier>) {
        let fs = match j {
            JsonValue::Object(fs) => fs,
            _ => { return None },
        };
        FeeTier::from_json_fields(fs)
    }
}

impl FeeTier {
    /// Decodes a fee tier from an object's members.
    pub fn from_json_fields(fs: &Vec<(String, JsonValue)>) -> (r: Option<FeeTier>)
        ensures
            match r {
                Some(t) => fee_tier_of_fields(fs@) == Some(t@),
                None => fee_tier_of_fields(fs@) is None,
            },
    {
        let pricing_tier = match get_str(fs, "pricing_tier") {
            Some(v) => v,
            None => { return None },
        };
        let usd_from = match get_str(fs, "usd_from") {
            Some(v) => v,
            None => { return None },
        };
        let usd_to = match get_str(fs, "usd_to") {
            Some(v) => v,
            None => { return None },
        };
        let taker = match get_decimal(fs, "taker_fee_rate") {
            Some(v) => v,
            None => { return None },
        };
        let maker = match get_decimal(fs, "maker_fee_rate") {
            Some(v) => v,
            None => { return None },
        };
        Some(
            FeeTier {
                pricing_tier: pricing_tier.clone(),
                usd_from: usd_from.clone(),
                usd_to: usd_to.clone(),
                taker_fee_rate: taker.clone(),
                maker_fee_rate: maker.clone(),
            },
        )
    }
}

/// A margin rate; text allows unlimited precision.
#[derive(Debug, PartialEq)]
pub struct MarginRate {
    pub value: String,
}

/// The mathematical content of a [`MarginRate`].
pub struct MarginRateView {
    pub value: Seq<char>,
}

impl View for MarginRate {
    type V = MarginRateView;

    open spec fn view(&self) -> MarginRateView {
        MarginRateView { value: self.value@ }
    }
}

/// The margin rate carried by an object's members.
pub open spec fn margin_rate_of_fields(fs: Seq<(String, JsonValue)>) -> Option<MarginRateView> {
    match str_field(fs, "value"@) {
        Some(value) => Some(MarginRateView { value }),
        None => None,
    }
}

/// How a goods-and-services tax applies.
#[derive(Debug, PartialEq, Eq, Structural, Clone, Copy)]
pub enum GoodsAndServicesTaxType {
    Inclusive,
    Exclusive,
}

impl GoodsAndServicesTaxType {
    /// The wire name of this value.
    pub open spec fn wire_spec(self) -> Seq<char> {
        match self {
            GoodsAndServicesTaxType::Inclusive => "INCLUSIVE"@,
            GoodsAndServicesTaxType::Exclusive => "EXCLUSIVE"@,
        }
    }

    /// Renders this value as its wire name.
    pub fn wire_name(&self) -> (r: &'static str)
        ensures
            r@ == self.wire_spec(),
    {
        match self {
            GoodsAndServicesTaxType::Inclusive => "INCLUSIVE",
            GoodsAndServicesTaxType::Exclusive => "EXCLUSIVE",
        }
    }

    /// The value a wire name stands for; `None` for an unknown name.
    pub open spec fn from_wire_spec(s: Seq<char>) -> Option<GoodsAndServicesTaxType> {
        if s == "INCLUSIVE"@ {
            Some(GoodsAndServicesTaxType::Inclusive)
        } else if s == "EXCLUSIVE"@ {
            Some(GoodsAndServicesTaxType::Exclusive)
        } else {
            None
        }
    }

    /// Reads a wire name.
    pub fn from_wire(s: &str) -> (r: Option<GoodsAndServicesTaxType>)
        ensures
            r == Self::from_wire_spec(s@),
    {
        if str_eq(s, "INCLUSIVE") {
            Some(GoodsAndServicesTaxType::Inclusive)
        } else if str_eq(s, "EXCLUSIVE") {
            Some(GoodsAndServicesTaxType::Exclusive)
        } else {
            None
        }
    }
}

/// A goods-and-services tax: its rate and how it applies.
#[derive(Debug, PartialEq)]
pub struct GoodsAndServicesTax {
    pub rate: String,
    pub tax_type: GoodsAndServicesTaxType,
}

/// The mathematical content of a [`GoodsAndServicesTax`].
pub struct GoodsAndServicesTaxView {
    pub rate: Seq<char>,
    pub tax_type: GoodsAndServicesTaxType,
}

impl View for GoodsAndServicesTax {
    type V = GoodsAndServicesTaxView;

    open spec fn view(&self) -> GoodsAndServicesTaxView {
        GoodsAndServicesTaxView { rate: self.rate@, tax_type: self.tax_type }
    }
}

/// The tax carried by an object's members.
pub open spec fn gst_of_fields(fs: Seq<(String, JsonValue)>) -> Option<GoodsAndServicesTaxView> {
    let rate = str_field(fs, "rate"@);
    let wire_type = str_field(fs, "type"@);
    if rate is None || wire_type is None || GoodsAndServicesTaxType::from_wire_spec(
        wire_type->0,
    ) is None {
        None
    } else {
        Some(
            GoodsAndServicesTaxView {
                rate: rate->0,
                tax_type: GoodsAndServicesTaxType::from_wire_spec(wire_type->0)->0,
            },
        )
    }
}

/// The summary of transactions under the current fee tier.  Dollar
/// totals arrive as JSON numbers and are carried as their tokens.
#[derive(Debug, PartialEq)]
pub struct TransactionsSummary {
    pub total_volume: String,
    pub total_fees: String,
    pub fee_tier: FeeTier,
    pub margin_rate: Option<MarginRate>,
    pub goods_and_services_tax: Option<GoodsAndServicesTax>,
    pub advanced_trade_only_volume: String,
    pub advanced_trade_only_fees: String,
    pub coinbase_pro_volume: String,
    pub coinbase_pro_fees: String,
}

/// The mathematical content of a [`TransactionsSummary`].
pub struct TransactionsSummaryView {
    pub total_volume: Seq<char>,
    pub total_fees: Seq<char>,
    pub fee_tier: FeeTierView,
    pub margin_rate: Option<MarginRateView>,
    pub goods_and_services_tax: Option<GoodsAndServicesTaxView>,
    pub advanced_trade_only_volume: Seq<char>,
    pub advanced_trade_only_fees: Seq<char>,
    pub coinbase_pro_volume: Seq<char>,
    pub coinbase_pro_fees: Seq<char>,
}

impl View for TransactionsSummary {
    type V = TransactionsSummaryView;

    open spec fn view(&self) -> TransactionsSummaryView {
        TransactionsSummaryView {
            total_volume: self.total_volume@,
            total_fees: self.total_fees@,
            fee_tier: self.fee_tier@,
            margin_rate: match self.margin_rate {
                Some(m) => Some(m@),
                None => None,
            },
            goods_and_services_tax: match self.goods_and_services_tax {
                Some(t) => Some(t@),
                None => None,
            },
            advanced_trade_only_volume: self.advanced_trade_only_volume@,
            advanced_trade_only_fees: self.advanced_trade_only_fees@,
            coinbase_pro_volume: self.coinbase_pro_volume@,
            coinbase_pro_fees: self.coinbase_pro_fees@,
        }
    }
}

/// The margin rate of an optional member.
pub open spec fn opt_margin_of(o: Option<Seq<(String, JsonValue)>>) -> Option<
    Option<MarginRateView>,
> {
    match o {
        None => Some(None),
        Some(gs) => match margin_rate_of_fields(gs) {
            Some(m) => Some(Some(m)),
            None => None,
        },
    }
}

/// The tax of an optional member.
pub open spec fn opt_gst_of(o: Option<Seq<(String, JsonValue)>>) -> Option<
    Option<GoodsAndServicesTaxView>,
> {
    match o {
        None => Some(None),
        Some(gs) => match gst_of_fields(gs) {
            Some(t) => Some(Some(t)),
            None => None,
        },
    }
}

impl FromJson for TransactionsSummary {
    open spec fn from_json_spec(j: JsonValue) -> Option<TransactionsSummaryView> {
        match j {
            JsonValue::Object(fs) => {
                let total_volume = num_field(fs@, "total_volume"@);
                let total_fees = num_field(fs@, "total_fees"@);
                let fee_tier = obj_field(fs@, "fee_tier"@);
                let margin_rate = opt_obj_field(fs@, "margin_rate"@);
                let gst = opt_obj_field(fs@, "goods_and_services_tax"@);
                let atv = num_field(fs@, "advanced_trade_only_volume"@);
                let atf = num_field(fs@, "advanced_trade_only_fees"@);
                let cpv = num_field(fs@, "coinbase_pro_volume"@);
                let cpf = num_field(fs@, "coinbase_pro_fees"@);
                if total_volume is None || total_fees is None || fee_tier is None
                    || fee_tier_of_fields(fee_tier->0) is None || margin_rate is None
                    || opt_margin_of(margin_rate->0) is None || gst is None || opt_gst_of(
                    gst->0,
                ) is None || atv is None || atf is None || cpv is None || cpf is None {
                    None
                } else {
                    Some(
                        TransactionsSummaryView {
                            total_volume: total_volume->0,
                            total_fees: total_fees->0,
                            fee_tier: fee_tier_of_fields(fee_tier->0)->0,
                            margin_rate: opt_margin_of(margin_rate->0)->0,
                            goods_and_services_tax: opt_gst_of(gst->0)->0,
                            advanced_trade_only_volume: atv->0,
                            advanced_trade_only_fees: atf->0,
                            coinbase_pro_volume: cpv->0,
                            coinbase_pro_fees: cpf->0,
                        },
                    )
                }
            },
            _ => None,
        }
    }

    fn from_json(j: &JsonValue) -> (r: Option<TransactionsSummary>) {
        let fs = match j {
            JsonValue::Object(fs) => fs,
            _ => { return None },
        };
        let total_volume = match get_num(fs, "total_volume") {
            Some(v) => v.clone(),
            None => { return None },
        };
        let total_fees = match get_num(fs, "total_fees") {
            Some(v) => v.clone(),
            None => { return None },
        };
        let fee_tier = match get_obj(fs, "fee_tier") {
            Some(gs) => match FeeTier::from_json_fields(gs) {
                Some(t) => t,
                None => { return None },
            },
            None => { return None },
        };
        let margin_rate = match get_opt_obj(fs, "margin_rate") {
            Some(Some(gs)) => match get_str(gs, "value") {
                Some(v) => Some(MarginRate { value: v.clone() }),
                None => { return None },
            },
            Some(None) => None,
            None => { return None },
        };
        let goods_and_services_tax = match get_opt_obj(fs, "goods_and_services_tax") {
            Some(Some(gs)) => {
                let rate = match get_str(gs, "rate") {
                    Some(v) => v,
                    None => { return None },
                };
                let tax_type = match get_str(gs, "type") {
                    Some(v) => match GoodsAndServicesTaxType::from_wire(v.as_str()) {
                        Some(t) => t,
                        None => { return None },
                    },
                    None => { return None },
                };
                Some(GoodsAndServicesTax { rate: rate.clone(), tax_type })
            },
            Some(None) => None,
            None => { return None },
        };
        let advanced_trade_only_volume = match get_num(fs, "advanced_trade_only_volume") {
            Some(v) => v.clone(),
            None => { return None },
        };
        let advanced_trade_only_fees = match get_num(fs, "advanced_trade_only_fees") {
            Some(v) => v.clone(),
            None => { return None },
        };
        let coinbase_pro_volume = match get_num(fs, "coinbase_pro_volume") {
            Some(v) => v.clone(),
            None => { return None },
        };
        let coinbase_pro_fees = match get_num(fs, "coinbase_pro_fees") {
            Some(v) => v.clone(),
            None => { return None },
        };
        Some(
            TransactionsSummary {
                total_volume,
                total_fees,
                fee_tier,
                margin_rate,
                goods_and_services_tax,
                advanced_trade_only_volume,
                advanced_trade_only_fees,
                coinbase_pro_volume,
                coinbase_pro_fees,
            },
        )
    }
}

} // verus!

//! Typed price records built from captured rows.
//!
//! Each record shape mirrors one table: its text fields are kept
//! verbatim and every price field is normalized into a [`Decimal`].
//! A price text that fails to parse yields the value zero, so a record
//! is always fully populated — there is no partial or error state.

use vstd::prelude::*;
use crate::numeric::Decimal;
use crate::numeric::norm_result;
use crate::numeric::normalize;

verus! {

/// One row of the China export-price table.
#[derive(Debug)]
pub struct ChinaExportBovine {
    pub state: String,
    pub gross_price: Decimal,
    pub net_price: Decimal,
}

impl ChinaExportBovine {
    /// Builds a record from one captured row: the state code is kept
    /// verbatim and both prices are normalized, falling back to zero
    /// when their text does not parse.
    pub fn new(state: String, gross_price: String, net_price: String) -> (r: Self)
        ensures
            r.state@ == state@,
            r.gross_price == norm_result(gross_price@).value,
            r.net_price == norm_result(net_price@).value,
    {
        let gross_price = normalize(gross_price.as_str()).value;
        let net_price = normalize(net_price.as_str()).value;
        ChinaExportBovine { state, gross_price, net_price }
    }
}

/// The gross prices of one market row: cash and thirty-day terms.
#[derive(Debug)]
pub struct GrossPrices {
    pub cash: Decimal,
    pub thirty_days: Decimal,
}

/// The contribution discounts of one market row.
#[derive(Debug)]
pub struct DiscountedPrices {
    pub funrural_cash: Decimal,
    pub funrural_thirty_days: Decimal,
    pub senar_cash: Decimal,
    pub senar_thirty_days: Decimal,
}

/// The animal category a market-price row belongs to.
#[derive(Debug, Clone, Copy, PartialEq, Eq, Structural)]
pub enum CattleType {
    FatOx,
    FatCow,
    FatHeifer,
}

/// One row of a physical-market price table, for one animal category.
#[derive(Debug)]
pub struct CattleMarketData {
    pub cattle_type: CattleType,
    pub state_code: String,
    pub gross_prices: GrossPrices,
    pub discounted_prices: DiscountedPrices,
}

impl CattleMarketData {
    /// Builds a record from one captured row: the state code is kept
    /// verbatim and every price field is normalized, falling back to
    /// zero when its text does not parse.
    pub fn new(
        cattle_type: CattleType,
        state_code: String,
        cash_price: String,
        price_30_days: String,
        funrural_discount_cash: String,
        funrural_discount_30_days: String,
        senar_contribution_cash: String,
        senar_contribution_30_days: String,
    ) -> (r: Self)
        ensures
            r.cattle_type == cattle_type,
            r.state_code@ == state_code@,
            r.gross_prices.cash == norm_result(cash_price@).value,
            r.gross_prices.thirty_days == norm_result(price_30_days@).value,
            r.discounted_prices.funrural_cash == norm_result(funrural_discount_cash@).value,
            r.discounted_prices.funrural_thirty_days == norm_result(
                funrural_discount_30_days@,
            ).value,
            r.discounted_prices.senar_cash == norm_result(senar_contribution_cash@).value,
            r.discounted_prices.senar_thirty_days == norm_result(
                senar_contribution_30_days@,
            ).value,
    {
        let gross_prices = GrossPrices {
            cash: normalize(cash_price.as_str()).value,
            thirty_days: normalize(price_30_days.as_str()).value,
        };
        let discounted_prices = DiscountedPrices {
            funrural_cash: normalize(funrural_discount_cash.as_str()).value,
            funrural_thirty_days: normalize(funrural_discount_30_days.as_str()).value,
            senar_cash: normalize(senar_contribution_cash.as_str()).value,
            senar_thirty_days: normalize(senar_contribution_30_days.as_str()).value,
        };
        CattleMarketData { cattle_type, state_code, gross_prices, discounted_prices }
    }
}

/// One row of the daily price-indicator table.
#[derive(Debug)]
pub struct CattlePrice {
    pub region: String,
    pub price_today: Decimal,
    pub price_yesterday: Decimal,
    pub price_change: Decimal,
}

impl CattlePrice {
    /// Builds a record from one captured row: the region name is kept
    /// verbatim and the three prices are normalized, falling back to
    /// zero when their text does not parse.
    pub fn new(
        region: String,
        price_today: String,
        price_yesterday: String,
        price_change: String,
    ) -> (r: Self)
        ensures
            r.region@ == region@,
            r.price_today == norm_result(price_today@).value,
            r.price_yesterday == norm_result(price_yesterday@).value,
            r.price_change == norm_result(price_change@).value,
    {
        let price_today = normalize(price_today.as_str()).value;
        let price_yesterday = normalize(price_yesterday.as_str()).value;
        let price_change = normalize(price_change.as_str()).value;
        CattlePrice { region, price_today, price_yesterday, price_change }
    }
}

} // verus!

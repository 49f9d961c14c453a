//! The structured payload of a quote event.

use crate::value::Number;
use vstd::prelude::*;

verus! {

/// The figures of one quote update. A figure that the update does not
/// mention is `None`.
#[derive(Debug, Clone, PartialEq, Eq)]
pub struct QuoteData {
    pub ask: Option<Number>,
    pub ask_size: Option<Number>,
    pub bid: Option<Number>,
    pub bid_size: Option<Number>,
    pub price_change: Option<Number>,
    pub price_percent_change: Option<Number>,
    pub open: Option<Number>,
    pub high: Option<Number>,
    pub low: Option<Number>,
    pub prev_close: Option<Number>,
    pub price: Option<Number>,
    pub timestamp: Option<Number>,
    pub volume: Option<Number>,
    pub currency: Option<String>,
    pub symbol: Option<String>,
    pub exchange: Option<String>,
    pub market_type: Option<String>,
}

/// One quote update: the symbol it is about, its status and its figures.
#[derive(Debug, Clone, PartialEq, Eq)]
pub struct QuoteValue {
    pub id: String,
    pub status: String,
    pub value: QuoteData,
}

} // verus!

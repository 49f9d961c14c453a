//! The structured payloads of chart and study events.

use crate::pine_indicator::ScriptType;
use crate::value::{Number, Value};
use vstd::prelude::*;

verus! {

/// The description of a symbol, as the remote service resolves it.
#[derive(Debug, Clone, PartialEq, Eq)]
pub struct SymbolInfo {
    pub id: String,
    pub name: String,
    pub full_name: String,
    pub description: String,
    pub exchange: String,
    pub listed_exchange: String,
    pub provider_id: String,
    pub base_currency: String,
    pub currency_code: String,
    pub timezone: String,
    pub market_type: String,
    pub session: String,
    pub price_scale: u64,
    pub point_value: u64,
    pub min_move: u64,
    pub has_intraday: bool,
    pub is_tradable: bool,
    pub is_replayable: bool,
    pub has_adjustment: bool,
    pub has_extended_hours: bool,
}

/// The series that a chart event belongs to.
#[derive(Debug, Clone, PartialEq, Eq)]
pub struct SeriesInfo {
    pub chart_session: String,
    pub series_id: String,
    pub symbol: String,
    pub exchange: String,
    pub interval: String,
}

/// One point of a series: its index and its figures, in the order in which
/// the remote service lists them.
#[derive(Debug, Clone, PartialEq, Eq)]
pub struct DataPoint {
    pub index: i64,
    pub value: Vec<Number>,
}

/// The script that a study runs.
#[derive(Debug, Clone, PartialEq, Eq)]
pub struct StudyOptions {
    pub script_id: String,
    pub script_version: String,
    pub script_type: ScriptType,
}

/// The data of one study update.
#[derive(Debug, Clone, PartialEq, Eq)]
pub struct StudyResponseData {
    pub node: String,
    pub studies: Vec<DataPoint>,
    pub raw_graphics: Value,
}

} // verus!

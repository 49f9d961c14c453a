//! Plain records shared by the rest of the data model.

use vstd::prelude::*;

verus! {

/// The reporting period of a fundamental figure.
#[derive(Debug, Clone, Copy, PartialEq, Eq)]
pub enum FinancialPeriod {
    FiscalYear,
    FiscalQuarter,
    FiscalHalfYear,
    TrailingTwelveMonths,
    UnknownPeriod,
}

/// The session of a signed-in user, as the remote service hands it out.
#[derive(Debug, Clone, PartialEq, Eq)]
pub struct UserCookies {
    pub id: u32,
    pub username: String,
    pub private_channel: String,
    pub auth_token: String,
    pub session: String,
    pub session_signature: String,
    pub session_hash: String,
    pub device_token: String,
}

} // verus!

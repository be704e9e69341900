//! Request, response and record types of the admin console.

use vstd::prelude::*;

verus! {

/// First login step: the submitted credentials.
#[derive(Debug, Clone, PartialEq, Eq)]
pub struct LoginRequest {
    pub username: String,
    pub password: String,
}

/// Answer to the first login step; `token` is the pending token when the
/// password was accepted.
#[derive(Debug, Clone, PartialEq, Eq)]
pub struct LoginResponse {
    pub success: bool,
    pub message: String,
    pub token: Option<String>,
    pub requires_totp: bool,
}

/// Second login step: the six-digit code and the pending token, if the
/// client sent one.
#[derive(Debug, Clone, PartialEq, Eq)]
pub struct TotpVerifyRequest {
    pub code: String,
    pub token: Option<String>,
}

/// Answer to the second login step; `session_token` is the bearer token
/// when the code was accepted.
#[derive(Debug, Clone, PartialEq, Eq)]
pub struct TotpVerifyResponse {
    pub valid: bool,
    pub message: String,
    pub session_token: Option<String>,
}

/// A logged-in admin session. The two instants are Unix seconds.
#[derive(Debug, Clone, PartialEq, Eq)]
pub struct AdminSession {
    pub user_id: String,
    pub username: String,
    pub created_at: u64,
    pub expires_at: u64,
    pub ip_address: String,
}

/// Usage figures shown on the analytics page.
#[derive(Debug, Clone, PartialEq, Eq)]
pub struct AnalyticsData {
    pub page_views: PageViewStats,
    pub api_calls: ApiCallStats,
    pub popular_pages: Vec<PageStat>,
    pub conditions_checks: i64,
    pub contact_submissions: i64,
}

#[derive(Debug, Clone, PartialEq, Eq)]
pub struct PageViewStats {
    pub today: i64,
    pub week: i64,
    pub month: i64,
    pub total: i64,
}

#[derive(Debug, Clone, PartialEq, Eq)]
pub struct ApiCallStats {
    pub flow_api: i64,
    pub weather_api: i64,
    pub conditions_api: i64,
}

#[derive(Debug, Clone, PartialEq, Eq)]
pub struct PageStat {
    pub path: String,
    pub views: i64,
}

/// A piece of page content edited from the console.
#[derive(Debug, Clone, PartialEq, Eq)]
pub struct ContentUpdate {
    pub page: String,
    pub section: String,
    pub content: String,
}

} // verus!

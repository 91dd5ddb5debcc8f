//! Administration views over users, searches, results and scrape logs.
use vstd::prelude::*;
use crate::num::{parse_i64, parsed_i64};
use crate::text::str_eq;

verus! {

/// Query parameters of every administration request.
pub struct AdminQuery {
    pub token: String,
}

/// Totals shown on the administration dashboard.
pub struct DashboardStats {
    pub total_users: i64,
    pub total_searches: i64,
    pub total_results_today: i64,
    pub active_subscriptions: i64,
    pub recent_scrapes: Vec<ScrapeLogResponse>,
}

/// One scrape run as listed to administrators.
pub struct ScrapeLogResponse {
    pub id: i64,
    pub search_config_id: i64,
    pub config_name: String,
    pub status: String,
    pub items_found: i32,
    pub error_message: Option<String>,
    pub duration_ms: Option<i64>,
    pub created_at: String,
}

/// One user as listed to administrators.
pub struct UserResponse {
    pub telegram_id: i64,
    pub username: Option<String>,
    pub first_name: Option<String>,
    pub is_admin: bool,
    pub is_active: bool,
    pub created_at: String,
    pub search_count: i64,
}

/// One configured search as listed to administrators.
pub struct SearchResponse {
    pub id: i64,
    pub telegram_id: i64,
    pub name: String,
    pub url: String,
    pub search_type: String,
    pub keywords: Option<String>,
    pub notify_mode: String,
    pub is_active: bool,
    pub created_at: String,
    pub result_count: i64,
}

/// One stored result as listed to administrators.
pub struct ResultResponse {
    pub id: i64,
    pub search_config_id: i64,
    pub config_name: String,
    pub title: Option<String>,
    pub url: Option<String>,
    pub external_id: Option<String>,
    pub scraped_at: String,
    pub notified: bool,
}


/// Whether a request may see the administration views: its token is the
/// configured administration token (when one is set and not empty), or
/// it reads as the Telegram id of a configured administrator.
pub open spec fn admin_allowed(admin_token: Option<Seq<char>>, admins: Seq<i64>, token: Seq<char>) -> bool {
    ||| (admin_token matches Some(t) && t.len() > 0 && token == t)
    ||| (parsed_i64(token) matches Some(id) && admins.contains(id as i64))
}

/// Checks the token of an administration request; `admin_token` is the
/// value of the `ADMIN_TOKEN` environment variable, when it is set.
pub fn check_admin_token(admin_token: Option<&str>, admins: &Vec<i64>, token: &str) -> (r: bool)
    ensures
        r == admin_allowed(crate::text::opt_str_view(admin_token), admins@, token@),
{
    match admin_token {
        Some(t) => if t.unicode_len() > 0 && str_eq(token, t) {
            return true;
        },
        None => {},
    }
    match parse_i64(token) {
        Some(id) => {
            let mut i: usize = 0;
            while i < admins.len()
                invariant
                    i <= admins.len(),
                    parsed_i64(token@) matches Some(v) && v as i64 == id,
                    forall|k: int| 0 <= k < i ==> admins@[k] != id,
                decreases admins.len() - i,
            {
                if admins[i] == id {
                    assert(admins@.contains(id));
                    return true;
                }
                i = i + 1;
            }
            false
        },
        None => false,
    }
}

/// The name a scrape log is listed with: its search's, or `Desconocida`
/// when the search is gone.
pub fn config_name_or_unknown(name: Option<String>) -> (r: String)
    ensures
        r@ == (match name {
            Some(n) => n@,
            None => "Desconocida"@,
        }),
{
    match name {
        Some(n) => n,
        None => crate::text::string_of("Desconocida"),
    }
}

} // verus!

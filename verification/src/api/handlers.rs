//! Request and response bodies of the public v1 API and the rules applied
//! to them.
use vstd::prelude::*;
use crate::api::rate_limit::{plan_monthly, RateLimiter};
use crate::dates::SimpleDateTime;
use crate::models::SearchConfig;
use crate::num::{fmt_i64, int_text};
use crate::text::{append_str, contains, str_contains, str_eq, string_of};

verus! {

/// Body of a registration request.
pub struct RegisterRequest {
    pub email: String,
    pub company: String,
}

/// Body of a successful registration.
pub struct RegisterResponse {
    pub api_key: String,
    pub plan: String,
    pub monthly_limit: i64,
    pub message: String,
}

/// Body of a search request.
pub struct SearchRequest {
    pub boletin: String,
    pub keywords: String,
    pub date_from: Option<String>,
    pub date_to: Option<String>,
}

/// Body returned when a search has been started.
pub struct SearchCreatedResponse {
    pub id: String,
    pub status: String,
    pub message: String,
}

/// Body describing the state of a search.
pub struct SearchStatusResponse {
    pub id: String,
    pub status: String,
    pub created_at: String,
    pub completed_at: Option<String>,
    pub error_message: Option<String>,
}

/// Body describing the monthly usage of a key.
pub struct UsageResponse {
    pub plan: String,
    pub month: String,
    pub request_count: i64,
    pub limit_count: i64,
    pub remaining: i64,
}

/// Body of any error answer.
pub struct ErrorResponse {
    pub error: String,
}


/// A request answered with an error: the HTTP status and the body.
pub struct ApiRejection {
    pub status: u16,
    pub body: ErrorResponse,
}

/// A rejection with `status` and `message`.
fn reject(status: u16, message: &str) -> (r: ApiRejection)
    ensures
        r.status == status,
        r.body.error@ == message@,
{
    ApiRejection { status, body: ErrorResponse { error: string_of(message) } }
}

/// Why a registration is refused before anything is stored: `400` when the
/// email is empty or has no `@`, else `400` when the company is empty.
pub open spec fn registration_problem(email: Seq<char>, company: Seq<char>) -> Option<Seq<char>> {
    if email.len() == 0 || !contains(email, "@"@) {
        Some("Valid email is required"@)
    } else if company.len() == 0 {
        Some("Company name is required"@)
    } else {
        None
    }
}

/// Checks the body of a registration request.
pub fn validate_registration(req: &RegisterRequest) -> (r: Result<(), ApiRejection>)
    ensures
        match registration_problem(req.email@, req.company@) {
            Some(m) => r matches Err(e) && e.status == 400 && e.body.error@ == m,
            None => r is Ok,
        },
{
    if req.email.unicode_len() == 0 || !str_contains(req.email.as_str(), "@") {
        return Err(reject(400, "Valid email is required"));
    }
    if req.company.unicode_len() == 0 {
        return Err(reject(400, "Company name is required"));
    }
    Ok(())
}

/// The answer to a registration whose email already has a key.
pub fn email_taken() -> (r: ApiRejection)
    ensures
        r.status == 409,
        r.body.error@ == "Email already registered"@,
{
    reject(409, "Email already registered")
}

/// A new API key made of a fresh UUID.
pub fn api_key_from(uuid: &str) -> (r: String)
    ensures
        r@ == crate::api::auth::API_KEY_PREFIX@ + uuid@,
{
    let mut k = string_of(crate::api::auth::API_KEY_PREFIX);
    append_str(&mut k, uuid);
    k
}

/// The plan given to new keys.
pub const NEW_KEY_PLAN: &'static str = "free";

/// The answer to a successful registration: the key (shown once), the
/// free plan and its monthly limit.
pub fn register_response(api_key: String) -> (r: RegisterResponse)
    ensures
        r.api_key@ == api_key@,
        r.plan@ == NEW_KEY_PLAN@,
        r.monthly_limit == plan_monthly(NEW_KEY_PLAN@),
        r.message@ == "IMPORTANT: Save this API key now. It will NOT be shown again."@,
{
    RegisterResponse {
        api_key,
        plan: string_of(NEW_KEY_PLAN),
        monthly_limit: RateLimiter::monthly_limit_for_plan(NEW_KEY_PLAN),
        message: string_of("IMPORTANT: Save this API key now. It will NOT be shown again."),
    }
}

/// The message of a search refused for the monthly limit.
pub open spec fn quota_message(count: int, limit: int) -> Seq<char> {
    "Monthly limit exceeded ("@ + int_text(count) + "/"@ + int_text(limit)
        + "). Upgrade to pro for higher limits."@
}

/// A search is refused with `429` once the key's requests this month reach
/// its monthly limit.
pub fn check_quota(current_count: i64, monthly_limit: i64) -> (r: Result<(), ApiRejection>)
    ensures
        current_count >= monthly_limit ==> (r matches Err(e) && e.status == 429
            && e.body.error@ == quota_message(current_count as int, monthly_limit as int)),
        current_count < monthly_limit ==> r is Ok,
{
    if current_count >= monthly_limit {
        let mut m = string_of("Monthly limit exceeded (");
        let c = fmt_i64(current_count);
        append_str(&mut m, c.as_str());
        append_str(&mut m, "/");
        let l = fmt_i64(monthly_limit);
        append_str(&mut m, l.as_str());
        append_str(&mut m, "). Upgrade to pro for higher limits.");
        Err(ApiRejection { status: 429, body: ErrorResponse { error: m } })
    } else {
        Ok(())
    }
}

/// The bulletin types a search can be made on.
pub open spec fn boletin_types() -> Seq<Seq<char>> {
    seq![
        "contratacion_estado"@, "generic_html"@, "boe_rss"@, "caib_licitaciones"@,
        "bocyl_rss"@, "doe_rss"@, "boc_canarias_rss"@, "borm_murcia"@,
    ]
}

/// The message of a search on an unknown bulletin type.
pub const INVALID_BOLETIN_MESSAGE: &'static str = "Invalid boletin type. Valid types: [\"contratacion_estado\", \"generic_html\", \"boe_rss\", \"caib_licitaciones\", \"bocyl_rss\", \"doe_rss\", \"boc_canarias_rss\", \"borm_murcia\"]";

/// A search is refused with `400` when its bulletin type is not one of
/// `boletin_types`.
pub fn check_boletin(boletin: &str) -> (r: Result<(), ApiRejection>)
    ensures
        boletin_types().contains(boletin@) ==> r is Ok,
        !boletin_types().contains(boletin@) ==> (r matches Err(e) && e.status == 400
            && e.body.error@ == INVALID_BOLETIN_MESSAGE@),
{
    let known = str_eq(boletin, "contratacion_estado") || str_eq(boletin, "generic_html")
        || str_eq(boletin, "boe_rss") || str_eq(boletin, "caib_licitaciones")
        || str_eq(boletin, "bocyl_rss") || str_eq(boletin, "doe_rss")
        || str_eq(boletin, "boc_canarias_rss") || str_eq(boletin, "borm_murcia");
    proof {
        let t = boletin_types();
        if known {
            assert(t[0] == "contratacion_estado"@ && t[1] == "generic_html"@ && t[2] == "boe_rss"@);
            assert(t[3] == "caib_licitaciones"@ && t[4] == "bocyl_rss"@ && t[5] == "doe_rss"@);
            assert(t[6] == "boc_canarias_rss"@ && t[7] == "borm_murcia"@);
        } else {
            assert forall|i: int| 0 <= i < t.len() implies t[i] != boletin@ by {}
        }
    }
    if known {
        Ok(())
    } else {
        Err(reject(400, INVALID_BOLETIN_MESSAGE))
    }
}

/// The search run for an API request on `boletin` (its type, and its
/// address too), created at `now`; no keywords when they are empty.
pub fn api_search_config(boletin: &str, keywords: &str, now: SimpleDateTime) -> (r: SearchConfig)
    ensures
        r.id == 0,
        r.telegram_id == 0,
        r.name@ == "API: "@ + boletin@,
        r.url@ == boletin@,
        r.search_type@ == boletin@,
        r.keywords matches Some(k) ==> keywords@.len() > 0 && k@ == keywords@,
        r.keywords is None ==> keywords@.len() == 0,
        r.css_selector is None,
        r.notify_mode@ == "none"@,
        r.filters is None,
        r.is_active,
        r.created_at == now,
        r.updated_at == now,
{
    let mut name = string_of("API: ");
    append_str(&mut name, boletin);
    SearchConfig {
        id: 0,
        telegram_id: 0,
        name,
        url: string_of(boletin),
        search_type: string_of(boletin),
        keywords: if keywords.unicode_len() == 0 { None } else { Some(string_of(keywords)) },
        css_selector: None,
        notify_mode: string_of("none"),
        filters: None,
        is_active: true,
        created_at: now,
        updated_at: now,
    }
}

/// The answer to a search that has been started.
pub fn search_started(id: String) -> (r: SearchCreatedResponse)
    ensures
        r.id@ == id@,
        r.status@ == "running"@,
        r.message@ == "Search started. Poll /api/v1/search/{id}/status for updates."@,
{
    SearchCreatedResponse {
        id,
        status: string_of("running"),
        message: string_of("Search started. Poll /api/v1/search/{id}/status for updates."),
    }
}

/// A stored search may be read only by the key that started it: `404`
/// when there is no such search, `403` when it belongs to another key.
pub fn check_search_access(owner: Option<&str>, key_id: &str) -> (r: Result<(), ApiRejection>)
    ensures
        owner is None ==> (r matches Err(e) && e.status == 404 && e.body.error@ == "Search not found"@),
        (owner matches Some(o) && o@ != key_id@) ==> (r matches Err(e) && e.status == 403
            && e.body.error@ == "You don't have access to this search"@),
        (owner matches Some(o) && o@ == key_id@) ==> r is Ok,
{
    match owner {
        None => Err(reject(404, "Search not found")),
        Some(o) => if str_eq(o, key_id) {
            Ok(())
        } else {
            Err(reject(403, "You don't have access to this search"))
        },
    }
}

/// The usage of a key this month: the stored counts, or none used of the
/// plan's monthly limit when nothing is stored; what remains is never
/// negative.
pub fn usage_response(plan: String, month: String, stored: Option<(i64, i64)>, monthly_limit: i64) -> (r: UsageResponse)
    requires
        stored matches Some((c, l)) ==> i64::MIN <= l - c <= i64::MAX,
        stored is None ==> monthly_limit >= 0,
    ensures
        r.plan@ == plan@,
        r.month@ == month@,
        (r.request_count, r.limit_count) == (match stored {
            Some((c, l)) => (c, l),
            None => (0i64, monthly_limit),
        }),
        r.remaining == (if r.limit_count - r.request_count > 0 { r.limit_count - r.request_count } else { 0 }),
{
    let (request_count, limit_count) = match stored {
        Some((c, l)) => (c, l),
        None => (0i64, monthly_limit),
    };
    let diff = limit_count - request_count;
    let remaining = if diff > 0 { diff } else { 0 };
    UsageResponse { plan, month, request_count, limit_count, remaining }
}


/// Issues the key of a new registration: `sk-scraper-` and a fresh UUID,
/// with its stored hash, which accepts the key. When hashing fails the
/// registration is answered `500`.
pub fn issue_api_key(uuid: &str) -> (r: Result<(String, String), ApiRejection>)
    ensures
        match r {
            Ok((key, hash)) => key@ == crate::api::auth::API_KEY_PREFIX@ + uuid@
                && crate::api::auth::argon2_accepts(key@, hash@),
            Err(e) => e.status == 500 && e.body.error@ == "Failed to generate API key"@,
        },
{
    let key = api_key_from(uuid);
    match crate::api::auth::hash_api_key(key.as_str()) {
        Ok(hash) => Ok((key, hash)),
        Err(_) => Err(reject(500, "Failed to generate API key")),
    }
}

} // verus!

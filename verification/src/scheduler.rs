//! The periodic work: when reports are due, what is stored of each scrape,
//! who is alerted at once, and what each run logs.
use vstd::prelude::*;
use crate::scraper::ScrapedItem;
use crate::text::{opt_view, str_eq, string_of};

verus! {

/// Daily reports go out during the first five minutes of the configured
/// hour.
pub open spec fn report_due(hour: u32, minute: u32, report_hour: u32) -> bool {
    hour == report_hour && minute < 5
}

/// Whether the daily reports are due at `hour:minute`.
pub fn is_report_time(hour: u32, minute: u32, report_hour: u32) -> (r: bool)
    ensures
        r == report_due(hour, minute, report_hour),
{
    hour == report_hour && minute < 5
}

/// Searches notified at once: mode `immediate` or `both`.
pub open spec fn immediate_mode(mode: Seq<char>) -> bool {
    mode == "immediate"@ || mode == "both"@
}

/// Whether a search is notified as soon as it finds results.
pub fn notifies_immediately(mode: &str) -> (r: bool)
    ensures
        r == immediate_mode(mode@),
{
    str_eq(mode, "immediate") || str_eq(mode, "both")
}

/// How a scraped item is stored.
pub enum StoreAction {
    /// It has no external id: it is stored (even if it was seen before),
    /// without an id.
    SaveAlways,
    /// It is stored with this external id unless a result of the same
    /// search already has it.
    SaveIfNew(String),
}

/// Decides how an item is stored from its external id (an empty id counts
/// as none).
pub fn store_action(item: &ScrapedItem) -> (r: StoreAction)
    ensures
        match opt_view(item.external_id) {
            Some(e) => if e.len() == 0 { r is SaveAlways } else { r matches StoreAction::SaveIfNew(x) && x@ == e },
            None => r is SaveAlways,
        },
{
    match &item.external_id {
        Some(e) => if e.unicode_len() == 0 {
            StoreAction::SaveAlways
        } else {
            StoreAction::SaveIfNew(e.clone())
        },
        None => StoreAction::SaveAlways,
    }
}

/// What a scrape run logs.
pub struct ScrapeLogEntry {
    pub status: String,
    pub items_found: i32,
    pub error_message: Option<String>,
}

/// The log of a run that found `found` items (`Ok`) or failed with a
/// message (`Err`): `ok` with the count, or `error` with no item and the
/// message.
pub fn scrape_log_entry(outcome: Result<usize, String>) -> (r: ScrapeLogEntry)
    requires
        outcome matches Ok(n) ==> n <= i32::MAX,
    ensures
        match outcome {
            Ok(n) => r.status@ == "ok"@ && r.items_found == n && r.error_message is None,
            Err(m) => r.status@ == "error"@ && r.items_found == 0 && opt_view(r.error_message) == Some(m@),
        },
{
    match outcome {
        Ok(n) => ScrapeLogEntry { status: string_of("ok"), items_found: n as i32, error_message: None },
        Err(m) => ScrapeLogEntry { status: string_of("error"), items_found: 0, error_message: Some(m) },
    }
}

/// The pause between two runs, in seconds.
pub fn pause_seconds(interval_minutes: u64) -> (r: u64)
    requires
        interval_minutes * 60 <= u64::MAX,
    ensures
        r == interval_minutes * 60,
{
    interval_minutes * 60
}

} // verus!

//! Rows of the bot's database, with dates as plain values.
use vstd::prelude::*;
use crate::dates::SimpleDateTime;

verus! {

/// A Telegram user of the bot.
pub struct User {
    pub telegram_id: i64,
    pub username: Option<String>,
    pub first_name: Option<String>,
    pub last_name: Option<String>,
    pub phone: Option<String>,
    pub email: Option<String>,
    pub is_admin: bool,
    pub is_active: bool,
    pub created_at: SimpleDateTime,
    pub updated_at: SimpleDateTime,
}

/// A search configured by a user.
pub struct SearchConfig {
    pub id: i64,
    pub telegram_id: i64,
    pub name: String,
    pub url: String,
    pub search_type: String,
    pub keywords: Option<String>,
    pub css_selector: Option<String>,
    pub notify_mode: String,
    pub filters: Option<String>,
    pub is_active: bool,
    pub created_at: SimpleDateTime,
    pub updated_at: SimpleDateTime,
}

/// An item found by a search.
pub struct SearchResult {
    pub id: i64,
    pub search_config_id: i64,
    pub title: Option<String>,
    pub description: Option<String>,
    pub url: Option<String>,
    pub external_id: Option<String>,
    pub raw_data: Option<String>,
    pub published_at: Option<SimpleDateTime>,
    pub scraped_at: SimpleDateTime,
    pub notified: bool,
}

/// An item found by a search, with the name of the search.
pub struct SearchResultWithConfig {
    pub id: i64,
    pub search_config_id: i64,
    pub title: Option<String>,
    pub description: Option<String>,
    pub url: Option<String>,
    pub external_id: Option<String>,
    pub raw_data: Option<String>,
    pub published_at: Option<SimpleDateTime>,
    pub scraped_at: SimpleDateTime,
    pub notified: bool,
    pub config_name: String,
}

/// The selectors learned for a web site.
pub struct UrlProfile {
    pub id: i64,
    pub domain: String,
    pub title_selector: Option<String>,
    pub item_selector: Option<String>,
    pub link_selector: Option<String>,
    pub description_selector: Option<String>,
    pub sample_url: Option<String>,
    pub confidence: i32,
    pub created_at: SimpleDateTime,
    pub updated_at: SimpleDateTime,
}

} // verus!

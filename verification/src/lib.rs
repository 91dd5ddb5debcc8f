//! Search and notification engine for public procurement bulletins.
pub mod text;
pub mod filters;
pub mod config;
pub mod api;
pub mod auto_learn;
pub mod wizard;
pub mod scraper;
pub mod num;
pub mod webhook;
pub mod dates;
pub mod html;
pub mod links;
pub mod models;
pub mod handlers;
pub mod conversation;
pub mod messages;
pub mod queries;
pub mod scheduler;
pub mod payments;

//! A terminal RSS reader: its subscriptions, the filtering of a feed's items
//! by publication period, the texts its screens show, and the key-driven
//! state machine of its interface. The program around it reads the keyboard,
//! fetches and parses feeds, draws the screens and saves the configuration.

pub mod config;
pub mod laws;
pub mod request;
pub mod session;
pub mod text;
pub mod time;
pub mod ui;

pub use config::{Config, ConfigFeed};
pub use request::{Channel, Item, RssFeed};
pub use session::{App, Command, Key};
pub use time::{deserialize_rfc2822, PubDateError, Timestamp};
pub use ui::{
    build_feed_cache, date_list_items_at, empty_feed_check, get_date_list_items,
    get_title_list_items, item_details_text, list_title, period_label, title_list_items_at,
    AddFeedForm, Field, Period,
};

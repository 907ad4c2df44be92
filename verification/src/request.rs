//! What the reader keeps of a fetched RSS document.

use crate::time::Timestamp;
use vstd::prelude::*;

verus! {

/// An entry of a channel; each part may be missing from the document.
#[derive(Debug)]
pub struct Item {
    pub title: Option<String>,
    pub link: Option<String>,
    pub description: Option<String>,
    pub pub_date: Option<Timestamp>,
}

/// The channel of an RSS document, with its entries in document order.
#[derive(Debug)]
pub struct Channel {
    pub title: Option<String>,
    pub link: Option<String>,
    pub item: Option<Vec<Item>>,
}

/// A parsed RSS document.
#[derive(Debug)]
pub struct RssFeed {
    pub channel: Channel,
}

/// The entries of a feed, in document order; none where the channel lists none.
pub open spec fn channel_items(feed: RssFeed) -> Seq<Item> {
    match feed.channel.item {
        Some(items) => items@,
        None => seq![],
    }
}

} // verus!

//! The reading period, the item lists it filters, and the texts the screens show.

use crate::request::{channel_items, Item, RssFeed};
use crate::text::{decimal, decimal_string};
use crate::time::{
    chrono_default_instant, chrono_signed_duration, chrono_strftime, chrono_utc_now,
    days_in_delta_range, delta_nanos, duration_since, format_instant, nanos_per_day, within_days,
    Timestamp,
};
use vstd::prelude::*;

verus! {

/// How far back the item lists reach.
#[derive(Clone, Copy, PartialEq, Eq, Structural, Debug)]
pub enum Period {
    Week,
    TwoWeeks,
    Month,
    Year,
}

/// The number of days a period spans.
pub open spec fn period_days(p: Period) -> i64 {
    match p {
        Period::Week => 7,
        Period::TwoWeeks => 14,
        Period::Month => 30,
        Period::Year => 365,
    }
}

/// The period that follows another in the cycle week, two weeks, month, year.
pub open spec fn period_after(p: Period) -> Period {
    match p {
        Period::Week => Period::TwoWeeks,
        Period::TwoWeeks => Period::Month,
        Period::Month => Period::Year,
        Period::Year => Period::Week,
    }
}

impl Period {
    /// The number of days the period spans.
    pub fn to_days(&self) -> (r: i64)
        ensures
            r == period_days(*self),
    {
        match self {
            Period::Week => 7,
            Period::TwoWeeks => 14,
            Period::Month => 30,
            Period::Year => 365,
        }
    }

    /// The next period in the cycle week, two weeks, month, year, week.
    pub fn next(&self) -> (r: Period)
        ensures
            r == period_after(*self),
    {
        match self {
            Period::Week => Period::TwoWeeks,
            Period::TwoWeeks => Period::Month,
            Period::Month => Period::Year,
            Period::Year => Period::Week,
        }
    }
}

/// Whether an item falls in a period of `days` days before `now`: it does
/// when it has no date, else when chrono's `now.signed_duration_since(date)`
/// is at most `TimeDelta::days(days)`.
pub open spec fn is_shown(item: Item, now: (i64, u32), days: i64) -> bool {
    match item.pub_date {
        Some(d) => delta_nanos(chrono_signed_duration(now.0, now.1, d@.0, d@.1)) <= days
            * nanos_per_day(),
        None => true,
    }
}

/// The items that fall in the period, in their order.
pub open spec fn shown_items(items: Seq<Item>, now: (i64, u32), days: i64) -> Seq<Item>
    decreases items.len(),
{
    if items.len() == 0 {
        seq![]
    } else {
        let rest = shown_items(items.drop_last(), now, days);
        if is_shown(items.last(), now, days) {
            rest.push(items.last())
        } else {
            rest
        }
    }
}

/// How an item is named in the title column.
pub open spec fn title_text(item: Item) -> Seq<char> {
    match item.title {
        Some(t) => t@,
        None => "Untitled"@,
    }
}

/// The pattern of dates in the date column and the details.
pub open spec fn date_pattern() -> Seq<char> {
    "%d-%m-%Y %H:%M"@
}

/// How an item is dated in the date column.
pub open spec fn date_text(item: Item) -> Seq<char> {
    match item.pub_date {
        Some(d) => chrono_strftime(d@.0, d@.1, date_pattern()),
        None => "No date"@,
    }
}

/// The title column of a feed for a period, read at `now`.
pub open spec fn title_list(feed: RssFeed, period: Period, now: (i64, u32)) -> Seq<Seq<char>> {
    shown_items(channel_items(feed), now, period_days(period)).map_values(|i: Item| title_text(i))
}

/// The date column of a feed for a period, read at `now`.
pub open spec fn date_list(feed: RssFeed, period: Period, now: (i64, u32)) -> Seq<Seq<char>> {
    shown_items(channel_items(feed), now, period_days(period)).map_values(|i: Item| date_text(i))
}

/// Whether an item falls in a period of `days` days before `now`.
pub fn item_in_period(item: &Item, now: &Timestamp, days: i64) -> (r: bool)
    requires
        days_in_delta_range(days),
    ensures
        r == is_shown(*item, now@, days),
{
    match &item.pub_date {
        Some(d) => {
            let delta = duration_since(now, d);
            within_days(delta, days)
        },
        None => true,
    }
}

fn title_of(item: &Item) -> (r: String)
    ensures
        r@ == title_text(*item),
{
    match &item.title {
        Some(t) => t.clone(),
        None => String::from_str("Untitled"),
    }
}

fn date_of(item: &Item) -> (r: String)
    ensures
        r@ == date_text(*item),
{
    match &item.pub_date {
        Some(d) => {
            proof {
                reveal_strlit("%d-%m-%Y %H:%M");
            }
            format_instant(d, "%d-%m-%Y %H:%M")
        },
        None => String::from_str("No date"),
    }
}


/// The title column of `feed` for `period`, as read at `now`: the title of
/// each item that falls in the period, "Untitled" where it has none.
pub fn title_list_items_at(feed: &RssFeed, period: &Period, now: &Timestamp) -> (r: Vec<String>)
    ensures
        r.deep_view() == title_list(*feed, *period, now@),
{
    let days = period.to_days();
    let mut res: Vec<String> = Vec::new();
    match &feed.channel.item {
        None => {
            assert(res.deep_view() =~= title_list(*feed, *period, now@));
        },
        Some(items) => {
            let ghost all = items@;
            let n = items.len();
            proof {
                assert(all.take(0) =~= seq![]);
            }
            for i in 0..n
                invariant
                    n == items.len(),
                    all == items@,
                    all == channel_items(*feed),
                    days == period_days(*period),
                    res.deep_view() == shown_items(all.take(i as int), now@, days).map_values(
                        |it: Item| title_text(it),
                    ),
            {
                proof {
                    assert(all.take(i + 1).drop_last() =~= all.take(i as int));
                    assert(all.take(i + 1).last() == all[i as int]);
                }
                let ghost before = res.deep_view();
                if item_in_period(&items[i], now, days) {
                    let t = title_of(&items[i]);
                    res.push(t);
                    proof {
                        let s = shown_items(all.take(i as int), now@, days);
                        assert(s.push(all[i as int]).map_values(|it: Item| title_text(it))
                            =~= s.map_values(|it: Item| title_text(it)).push(title_text(all[i as int])));
                        assert(res.deep_view() =~= before.push(title_text(all[i as int])));
                    }
                }
            }
            proof {
                assert(all.take(n as int) =~= all);
            }
        },
    }
    res
}

/// The date column of `feed` for `period`, as read at `now`: the date of
/// each item that falls in the period, written day-month-year hour:minute,
/// "No date" where it has none.
pub fn date_list_items_at(feed: &RssFeed, period: &Period, now: &Timestamp) -> (r: Vec<String>)
    ensures
        r.deep_view() == date_list(*feed, *period, now@),
{
    let days = period.to_days();
    let mut res: Vec<String> = Vec::new();
    match &feed.channel.item {
        None => {
            assert(res.deep_view() =~= date_list(*feed, *period, now@));
        },
        Some(items) => {
            let ghost all = items@;
            let n = items.len();
            proof {
                assert(all.take(0) =~= seq![]);
            }
            for i in 0..n
                invariant
                    n == items.len(),
                    all == items@,
                    all == channel_items(*feed),
                    days == period_days(*period),
                    res.deep_view() == shown_items(all.take(i as int), now@, days).map_values(
                        |it: Item| date_text(it),
                    ),
            {
                proof {
                    assert(all.take(i + 1).drop_last() =~= all.take(i as int));
                    assert(all.take(i + 1).last() == all[i as int]);
                }
                let ghost before = res.deep_view();
                if item_in_period(&items[i], now, days) {
                    let t = date_of(&items[i]);
                    res.push(t);
                    proof {
                        let s = shown_items(all.take(i as int), now@, days);
                        assert(s.push(all[i as int]).map_values(|it: Item| date_text(it))
                            =~= s.map_values(|it: Item| date_text(it)).push(date_text(all[i as int])));
                        assert(res.deep_view() =~= before.push(date_text(all[i as int])));
                    }
                }
            }
            proof {
                assert(all.take(n as int) =~= all);
            }
        },
    }
    res
}

/// The title column of `feed` for `period`, as read now: the columns of
/// `title_list_items_at` for the instant the system clock gives.
pub fn get_title_list_items(feed: &RssFeed, period: &Period) -> (r: Vec<String>)
    ensures
        exists|now: (i64, u32)|
            #![trigger title_list(*feed, *period, now)]
            0 <= now.0 && now.1 < 1_000_000_000 && title_list(*feed, *period, now) == r.deep_view(),
{
    let now = chrono_utc_now();
    title_list_items_at(feed, period, &now)
}

/// The date column of `feed` for `period`, as read now: the column of
/// `date_list_items_at` for the instant the system clock gives.
pub fn get_date_list_items(feed: &RssFeed, period: &Period) -> (r: Vec<String>)
    ensures
        exists|now: (i64, u32)|
            #![trigger date_list(*feed, *period, now)]
            0 <= now.0 && now.1 < 1_000_000_000 && date_list(*feed, *period, now) == r.deep_view(),
{
    let now = chrono_utc_now();
    date_list_items_at(feed, period, &now)
}


/// A text, or a fallback where it is missing.
pub open spec fn text_or(text: Option<String>, fallback: Seq<char>) -> Seq<char> {
    match text {
        Some(t) => t@,
        None => fallback,
    }
}

/// When an item was published, as the details show it: its date, or the
/// Unix epoch where it has none.
pub open spec fn published_text(item: Item) -> Seq<char> {
    match item.pub_date {
        Some(d) => chrono_strftime(d@.0, d@.1, date_pattern()),
        None => chrono_strftime(0, 0, date_pattern()),
    }
}

/// The text of the details of an item.
pub open spec fn details_text(item: Item) -> Seq<char> {
    "Title: "@ + text_or(item.title, "No Title Available"@) + "\n\n"@ + "Link: "@ + text_or(
        item.link,
        "No Link Available"@,
    ) + "\n\n"@ + "Description: "@ + text_or(item.description, "No Description Available"@)
        + "\n\n"@ + "Date Published: "@ + published_text(item)
}

fn append_or(out: &mut String, text: &Option<String>, fallback: &str)
    ensures
        final(out)@ == old(out)@ + text_or(*text, fallback@),
{
    match text {
        Some(t) => out.append(t.as_str()),
        None => out.append(fallback),
    }
}

/// The details of the entry at position `selected` of the feed's channel
/// (counted among all its entries, whatever the period): none where nothing
/// is selected, the channel lists no entries, or the position is past them.
pub fn item_details_text(feed: &RssFeed, selected: Option<usize>) -> (r: Option<String>)
    ensures
        r is Some <==> (selected is Some && feed.channel.item is Some && selected->0
            < feed.channel.item->0.len()),
        r matches Some(s) ==> s@ == details_text(feed.channel.item->0@[selected->0 as int]),
{
    match selected {
        None => None,
        Some(index) => match &feed.channel.item {
            None => None,
            Some(items) => {
                if index < items.len() {
                    let item = &items[index];
                    let published = match &item.pub_date {
                        Some(d) => d.clone(),
                        None => chrono_default_instant(),
                    };
                    proof {
                        reveal_strlit("%d-%m-%Y %H:%M");
                    }
                    let date = format_instant(&published, "%d-%m-%Y %H:%M");
                    let mut s = String::from_str("Title: ");
                    append_or(&mut s, &item.title, "No Title Available");
                    s.append("\n\n");
                    s.append("Link: ");
                    append_or(&mut s, &item.link, "No Link Available");
                    s.append("\n\n");
                    s.append("Description: ");
                    append_or(&mut s, &item.description, "No Description Available");
                    s.append("\n\n");
                    s.append("Date Published: ");
                    s.append(date.as_str());
                    Some(s)
                } else {
                    None
                }
            },
        },
    }
}

/// The heading of the title column: the channel's name, then the position of
/// the selected item counted from one (one where nothing is selected), a
/// slash and the number of items.
pub open spec fn list_heading(channel_title: Seq<char>, selected: Option<usize>, len: usize) -> Seq<
    char,
> {
    let position: nat = match selected {
        Some(i) => (i + 1) as nat,
        None => 1,
    };
    channel_title + "  "@ + decimal(position) + "/"@ + decimal(len as nat)
}

/// The heading of the title column (`"{}  {:?}/{}"` of the channel's name,
/// the selected position plus one and the number of items).
pub fn list_title(channel_title: &str, selected: Option<usize>, len: usize) -> (r: String)
    requires
        selected != Some(usize::MAX),
    ensures
        r@ == list_heading(channel_title@, selected, len),
{
    let position = match selected {
        Some(i) => i + 1,
        None => 1,
    };
    let mut s = String::from_str(channel_title);
    s.append("  ");
    let p = decimal_string(position);
    s.append(p.as_str());
    s.append("/");
    let l = decimal_string(len);
    s.append(l.as_str());
    s
}

/// The period box's text: the number of days of the period.
pub fn period_label(period: &Period) -> (r: String)
    ensures
        r@ == decimal(period_days(*period) as nat),
{
    let days = period.to_days();
    decimal_string(days as usize)
}

/// Sets the message line after the item lists change: "Feed is empty!"
/// where the title column is empty, a blank otherwise.
pub fn empty_feed_check(titles: &Vec<String>, message: &mut String)
    ensures
        final(message)@ == (if titles.len() == 0 {
            "Feed is empty!"@
        } else {
            " "@
        }),
{
    if titles.len() == 0 {
        *message = String::from_str("Feed is empty!");
    } else {
        *message = String::from_str(" ");
    }
}

/// The feeds that were fetched, in order, from the results of fetching each
/// subscribed feed.
pub open spec fn fetched_feeds(results: Seq<Result<RssFeed, String>>) -> Seq<RssFeed>
    decreases results.len(),
{
    if results.len() == 0 {
        seq![]
    } else {
        let rest = fetched_feeds(results.drop_last());
        match results.last() {
            Ok(feed) => rest.push(feed),
            Err(_) => rest,
        }
    }
}

/// The feeds to read from, given the result of fetching each subscribed feed
/// in turn: those that were fetched, in order; the failures are left out.
pub fn build_feed_cache(results: Vec<Result<RssFeed, String>>) -> (r: Vec<RssFeed>)
    ensures
        r@ == fetched_feeds(results@),
{
    let mut out: Vec<RssFeed> = Vec::new();
    let ghost all = results@;
    proof {
        assert(all.take(0) =~= seq![]);
    }
    for res in it: results
        invariant
            it.seq() == all,
            out@ == fetched_feeds(all.take(it.index())),
    {
        proof {
            assert(all.take(it.index() + 1).drop_last() =~= all.take(it.index()));
        }
        match res {
            Ok(feed) => out.push(feed),
            Err(_) => {},
        }
    }
    proof {
        assert(all.take(all.len() as int) =~= all);
    }
    out
}

/// The input box of the new-feed form that keys go to.
#[derive(Clone, Copy, PartialEq, Eq, Structural, Debug)]
pub enum Field {
    Title,
    Link,
}

/// The box that follows another when focus moves.
pub open spec fn field_after(f: Field) -> Field {
    match f {
        Field::Title => Field::Link,
        Field::Link => Field::Title,
    }
}

/// The new-feed form: the lines typed into its title and link boxes, and
/// the box that has the focus.
pub struct AddFeedForm {
    pub title: Vec<String>,
    pub link: Vec<String>,
    pub focused: Field,
}

impl AddFeedForm {
    /// An empty form (each box holds one empty line) with the title box focused.
    pub fn new() -> (r: AddFeedForm)
        ensures
            r.title.deep_view() == seq![Seq::<char>::empty()],
            r.link.deep_view() == seq![Seq::<char>::empty()],
            r.focused == Field::Title,
    {
        let r = AddFeedForm {
            title: vec![String::new()],
            link: vec![String::new()],
            focused: Field::Title,
        };
        assert(r.title.deep_view() =~= seq![Seq::<char>::empty()]);
        assert(r.link.deep_view() =~= seq![Seq::<char>::empty()]);
        r
    }

    /// Moves the focus to the other box; the text is left as it is.
    pub fn focus_next(&mut self)
        ensures
            final(self).focused == field_after(old(self).focused),
            final(self).title == old(self).title,
            final(self).link == old(self).link,
    {
        self.focused = match self.focused {
            Field::Title => Field::Link,
            Field::Link => Field::Title,
        };
    }
}

} // verus!

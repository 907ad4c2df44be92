//! Properties of the reader that hold across its operations.

use crate::request::{channel_items, Item, RssFeed};
use crate::session::{
    form_adds, index_after_left, index_after_right, key_panics, key_step, main_step,
    submitted_link, submitted_title, AppView, CommandView, Key,
};
use crate::config::ConfigFeedView;
use crate::ui::{
    date_list, date_text, details_text, field_after, is_shown, period_after, period_days,
    published_text, shown_items, title_list, title_text, Field, Period,
};
use crate::time::{chrono_strftime, nanos_per_day};
use vstd::prelude::*;

verus! {

/// Pressing on to the next period four times comes back to the same period.
pub proof fn law_period_cycle(p: Period)
    ensures
        period_after(period_after(period_after(period_after(p)))) == p,
{
}

/// Each period but the year is followed by a longer one; the year by the week.
pub proof fn law_next_period_is_longer(p: Period)
    ensures
        p != Period::Year ==> period_days(period_after(p)) > period_days(p),
        p == Period::Year ==> period_after(p) == Period::Week,
{
}

/// Moving the focus of the form twice returns it to the box it was in, and
/// moving it once always changes the box.
pub proof fn law_focus_toggles(f: Field)
    ensures
        field_after(field_after(f)) == f,
        field_after(f) != f,
{
}

/// An item without a date falls in every period.
pub proof fn law_undated_items_always_shown(item: Item, now: (i64, u32), days: i64)
    requires
        item.pub_date is None,
    ensures
        is_shown(item, now, days),
{
}

/// For one instant, the title column and the date column of a feed have the
/// same rows: row `i` of each belongs to the same item.
pub proof fn law_columns_line_up(feed: RssFeed, period: Period, now: (i64, u32))
    ensures
        title_list(feed, period, now).len() == date_list(feed, period, now).len(),
        forall|i: int|
            0 <= i < title_list(feed, period, now).len() ==> {
                let item = shown_items(channel_items(feed), now, period_days(period))[i];
                &&& #[trigger] title_list(feed, period, now)[i] == title_text(item)
                &&& date_list(feed, period, now)[i] == date_text(item)
            },
{
}

proof fn lemma_shown_monotone(items: Seq<Item>, now: (i64, u32), short: i64, long: i64)
    requires
        short <= long,
    ensures
        shown_items(items, now, short).len() <= shown_items(items, now, long).len(),
    decreases items.len(),
{
    if items.len() > 0 {
        lemma_shown_monotone(items.drop_last(), now, short, long);
        let item = items.last();
        if is_shown(item, now, short) {
            match item.pub_date {
                Some(d) => {
                    assert(short * nanos_per_day() <= long * nanos_per_day()) by (nonlinear_arith)
                        requires
                            short <= long,
                            nanos_per_day() > 0,
                    ;
                },
                None => {},
            }
            assert(is_shown(item, now, long));
        }
    }
}

/// A longer period lists at least as many items: an item that falls in a
/// period falls in every longer one.
pub proof fn law_longer_period_lists_more(
    feed: RssFeed,
    shorter: Period,
    longer: Period,
    now: (i64, u32),
)
    requires
        period_days(shorter) <= period_days(longer),
    ensures
        title_list(feed, shorter, now).len() <= title_list(feed, longer, now).len(),
{
    lemma_shown_monotone(channel_items(feed), now, period_days(shorter), period_days(longer));
}

/// On the item screen, moving right through the subscriptions and then left
/// comes back to the feed shown before.
pub proof fn law_right_then_left_returns(
    s: AppView,
    tn: (i64, u32),
    dn: (i64, u32),
    tn2: (i64, u32),
    dn2: (i64, u32),
)
    requires
        !s.new_channel_popup,
        !s.channel_list_popup,
        s.feed_cache.len() > 0,
        s.feed_index < s.feeds.len(),
        s.feeds.len() <= usize::MAX,
    ensures
        main_step(main_step(s, Key::Right, tn, dn).0, Key::Left, tn2, dn2).0.feed_index
            == s.feed_index,
{
    let n = s.feeds.len() as int;
    let i = s.feed_index as int;
    let s1 = main_step(s, Key::Right, tn, dn).0;
    assert(s1.feed_index == index_after_right(s));
    assert(s1.feeds == s.feeds);
    if i + 1 < n {
        vstd::arithmetic::div_mod::lemma_small_mod((i + 1) as nat, n as nat);
        assert(s1.feed_index == i + 1);
        vstd::arithmetic::div_mod::lemma_mod_add_multiples_vanish(i, n);
        vstd::arithmetic::div_mod::lemma_small_mod(i as nat, n as nat);
        assert((s1.feed_index + n - 1) % n == i);
    } else {
        vstd::arithmetic::div_mod::lemma_mod_self_0(n);
        assert(s1.feed_index == 0);
        vstd::arithmetic::div_mod::lemma_small_mod((n - 1) as nat, n as nat);
        assert((s1.feed_index + n - 1) % n == i);
    }
    assert(index_after_left(s1) == s.feed_index);
}

/// Only two key presses change the subscriptions: submitting the new-feed
/// form, and deleting from the feed list.
pub proof fn law_subscriptions_change_only_by_form_or_delete(
    s: AppView,
    key: Key,
    tn: (i64, u32),
    dn: (i64, u32),
)
    requires
        key_step(s, key, tn, dn).0.feeds != s.feeds,
    ensures
        (s.new_channel_popup && key == Key::Enter) || (!s.new_channel_popup
            && s.channel_list_popup && key == Key::Delete),
{
}

/// Submitting the new-feed form closes it and subscribes, at the end of the
/// list, to the feed typed in, trimmed, when neither its title nor its link
/// is empty; otherwise the subscriptions stay as they were. Either way the
/// feeds are fetched again, after saving exactly when one was added.
pub proof fn law_submit_appends_feed(s: AppView, tn: (i64, u32), dn: (i64, u32))
    requires
        s.new_channel_popup,
    ensures
        !key_step(s, Key::Enter, tn, dn).0.new_channel_popup,
        form_adds(s) ==> key_step(s, Key::Enter, tn, dn).0.feeds == s.feeds.push(
            ConfigFeedView { link: submitted_link(s), title: submitted_title(s) },
        ),
        !form_adds(s) ==> key_step(s, Key::Enter, tn, dn).0.feeds == s.feeds,
        key_step(s, Key::Enter, tn, dn).1 == (CommandView::Refetch { save_first: form_adds(s) }),
{
}

/// Deleting in the feed list removes the selected subscription and no other.
pub proof fn law_delete_removes_selected(s: AppView, tn: (i64, u32), dn: (i64, u32))
    requires
        !s.new_channel_popup,
        s.channel_list_popup,
        !key_panics(s, Key::Delete),
    ensures
        key_step(s, Key::Delete, tn, dn).0.feeds == s.feeds.remove(s.channels_selected->0 as int),
        key_step(s, Key::Delete, tn, dn).0.feeds.len() + 1 == s.feeds.len(),
{
}

/// At most one of the new-feed form and the feed list is open, whatever keys
/// are pressed, when it was so before.
pub proof fn law_one_popup_at_a_time(s: AppView, key: Key, tn: (i64, u32), dn: (i64, u32))
    requires
        !(s.new_channel_popup && s.channel_list_popup),
    ensures
        !(key_step(s, key, tn, dn).0.new_channel_popup && key_step(s, key, tn, dn).0.channel_list_popup),
{
}

/// The feed the item screen shows stays one of the fetched feeds: a key
/// press that does not panic never points it past them.
pub proof fn law_shown_feed_stays_fetched(s: AppView, key: Key, tn: (i64, u32), dn: (i64, u32))
    requires
        s.feed_index < s.feed_cache.len(),
        !key_panics(s, key),
    ensures
        key_step(s, key, tn, dn).0.feed_index < key_step(s, key, tn, dn).0.feed_cache.len(),
{
}

/// On the item screen, `q` and `Esc` leave the interface and change nothing.
pub proof fn law_quit_keys(s: AppView, key: Key, tn: (i64, u32), dn: (i64, u32))
    requires
        !s.new_channel_popup,
        !s.channel_list_popup,
        key == Key::Esc || key == Key::Char('q'),
    ensures
        key_step(s, key, tn, dn) == (s, CommandView::Quit),
{
}

/// Leaving the new-feed form with `Esc` or `q` keeps what was typed and
/// subscribes to nothing.
pub proof fn law_leaving_form_keeps_text(s: AppView, key: Key, tn: (i64, u32), dn: (i64, u32))
    requires
        s.new_channel_popup,
        key == Key::Esc || key == Key::Char('q'),
    ensures
        !key_step(s, key, tn, dn).0.new_channel_popup,
        key_step(s, key, tn, dn).0.feeds == s.feeds,
        key_step(s, key, tn, dn).0.form_title == s.form_title,
        key_step(s, key, tn, dn).0.form_link == s.form_link,
{
}

/// On the item screen, pressing `t` four times brings back the period the
/// lists had, each press selecting the first row.
pub proof fn law_period_key_cycles(s: AppView, t: Seq<(i64, u32)>, d: Seq<(i64, u32)>)
    requires
        !s.new_channel_popup,
        !s.channel_list_popup,
        s.feed_index < s.feed_cache.len(),
        t.len() == 4,
        d.len() == 4,
    ensures
        ({
            let s1 = key_step(s, Key::Char('t'), t[0], d[0]).0;
            let s2 = key_step(s1, Key::Char('t'), t[1], d[1]).0;
            let s3 = key_step(s2, Key::Char('t'), t[2], d[2]).0;
            let s4 = key_step(s3, Key::Char('t'), t[3], d[3]).0;
            &&& s4.period == s.period
            &&& s4.items_selected == Some(0usize)
            &&& s4.feed_index == s.feed_index
        }),
{
}

/// The periods follow each other week, two weeks, month, year, week, and
/// span 7, 14, 30 and 365 days.
pub proof fn law_period_order()
    ensures
        period_after(Period::Week) == Period::TwoWeeks,
        period_after(Period::TwoWeeks) == Period::Month,
        period_after(Period::Month) == Period::Year,
        period_after(Period::Year) == Period::Week,
        period_days(Period::Week) == 7,
        period_days(Period::TwoWeeks) == 14,
        period_days(Period::Month) == 30,
        period_days(Period::Year) == 365,
{
}

/// Row `i` of the date column is the date of the `i`-th listed item written
/// by chrono as day-month-year hour:minute (`%d-%m-%Y %H:%M`), or "No date"
/// for an undated item; the details write a date the same way.
pub proof fn law_dates_written_day_month_year_hour_minute(
    feed: RssFeed,
    period: Period,
    now: (i64, u32),
    item: Item,
)
    ensures
        forall|i: int|
            0 <= i < date_list(feed, period, now).len() ==> {
                let it = shown_items(channel_items(feed), now, period_days(period))[i];
                #[trigger] date_list(feed, period, now)[i] == match it.pub_date {
                    Some(d) => chrono_strftime(d@.0, d@.1, "%d-%m-%Y %H:%M"@),
                    None => "No date"@,
                }
            },
        item.pub_date matches Some(d) ==> date_text(item) == chrono_strftime(
            d@.0,
            d@.1,
            "%d-%m-%Y %H:%M"@,
        ),
        item.pub_date matches Some(d) ==> published_text(item) == chrono_strftime(
            d@.0,
            d@.1,
            "%d-%m-%Y %H:%M"@,
        ),
        item.pub_date is None ==> published_text(item) == chrono_strftime(0, 0, "%d-%m-%Y %H:%M"@),
        item.pub_date is Some ==> date_text(item) == published_text(item),
{
}

/// On the item screen, Up moves the selection one row up (staying on the
/// first row), and Down then Up comes back to the row selected before.
pub proof fn law_up_and_down_move_one_item_row(
    s: AppView,
    i: usize,
    tn: (i64, u32),
    dn: (i64, u32),
    tn2: (i64, u32),
    dn2: (i64, u32),
)
    requires
        !s.new_channel_popup,
        !s.channel_list_popup,
        s.items_selected == Some(i),
    ensures
        i > 0 ==> key_step(s, Key::Up, tn, dn).0.items_selected == Some((i - 1) as usize),
        i == 0 ==> key_step(s, Key::Up, tn, dn).0.items_selected == Some(0usize),
        i < usize::MAX ==> key_step(s, Key::Down, tn, dn).0.items_selected == Some(
            (i + 1) as usize,
        ),
        i < usize::MAX ==> key_step(key_step(s, Key::Down, tn, dn).0, Key::Up, tn2, dn2).0.items_selected
            == Some(i),
{
}

/// In the feed list, Up moves the selection one row up (staying on the
/// first row), and Down then Up comes back to the row selected before.
pub proof fn law_up_and_down_move_one_feed_row(
    s: AppView,
    i: usize,
    tn: (i64, u32),
    dn: (i64, u32),
    tn2: (i64, u32),
    dn2: (i64, u32),
)
    requires
        !s.new_channel_popup,
        s.channel_list_popup,
        s.channels_selected == Some(i),
    ensures
        i > 0 ==> key_step(s, Key::Up, tn, dn).0.channels_selected == Some((i - 1) as usize),
        i == 0 ==> key_step(s, Key::Up, tn, dn).0.channels_selected == Some(0usize),
        i < usize::MAX ==> key_step(s, Key::Down, tn, dn).0.channels_selected == Some(
            (i + 1) as usize,
        ),
        i < usize::MAX ==> key_step(key_step(s, Key::Down, tn, dn).0, Key::Up, tn2, dn2).0.channels_selected
            == Some(i),
{
}

/// Pressing `t` on the item screen moves to the next period and reads the
/// lists again for that new period, selecting the first row.
pub proof fn law_period_key_lists_the_new_period(s: AppView, tn: (i64, u32), dn: (i64, u32))
    requires
        !s.new_channel_popup,
        !s.channel_list_popup,
        s.feed_index < s.feed_cache.len(),
    ensures
        ({
            let r = key_step(s, Key::Char('t'), tn, dn).0;
            &&& r.period == period_after(s.period)
            &&& r.period != s.period
            &&& r.feed_index == s.feed_index
            &&& r.feed_cache == s.feed_cache
            &&& r.titles == title_list(s.feed_cache[s.feed_index as int], r.period, tn)
            &&& r.dates == date_list(s.feed_cache[s.feed_index as int], r.period, dn)
            &&& r.items_selected == Some(0usize)
        }),
{
}

/// Switching the shown feed (Right or Left on the item screen, Enter in the
/// feed list) selects the first row of the new feed, reads its lists for
/// the current period and shows its subscription's name.
pub proof fn law_switching_feed_selects_first_row(
    s: AppView,
    key: Key,
    tn: (i64, u32),
    dn: (i64, u32),
)
    requires
        !s.new_channel_popup,
        !key_panics(s, key),
        s.feeds.len() <= usize::MAX,
        (!s.channel_list_popup && (key == Key::Right || key == Key::Left) && s.feed_cache.len() > 0)
            || (s.channel_list_popup && key == Key::Enter),
    ensures
        ({
            let r = key_step(s, key, tn, dn).0;
            &&& r.items_selected == Some(0usize)
            &&& r.feed_index < r.feed_cache.len()
            &&& r.feed_cache == s.feed_cache
            &&& r.period == s.period
            &&& r.titles == title_list(r.feed_cache[r.feed_index as int], s.period, tn)
            &&& r.dates == date_list(r.feed_cache[r.feed_index as int], s.period, dn)
            &&& r.channel_title == s.feeds[r.feed_index as int].title
            &&& (s.channel_list_popup ==> r.feed_index == s.channels_selected->0 && !r.channel_list_popup)
            &&& (key == Key::Right ==> r.feed_index == (s.feed_index + 1) % (s.feeds.len() as int))
            &&& (key == Key::Left ==> r.feed_index == (s.feed_index + s.feeds.len() - 1) % (
            s.feeds.len() as int))
        }),
{
}

} // verus!

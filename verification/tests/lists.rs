use rss_client::request::{Channel, Item, RssFeed};
use rss_client::text::{decimal_string, joined_lines, trimmed};
use rss_client::time::{duration_since, within_days};
use rss_client::ui::{
    build_feed_cache, date_list_items_at, empty_feed_check, get_date_list_items,
    get_title_list_items, item_details_text, item_in_period, list_title, period_label,
    title_list_items_at, AddFeedForm, Field, Period,
};
use rss_client::{deserialize_rfc2822, Timestamp};

const DAY: i64 = 86_400;
// 2015-05-15 00:00:00 UTC
const NOW: i64 = 1_431_648_000;

fn at(secs: i64) -> Timestamp {
    Timestamp::from_unix(secs, 0).unwrap()
}

fn item(title: Option<&str>, link: Option<&str>, date: Option<i64>) -> Item {
    Item {
        title: title.map(|s| s.to_string()),
        link: link.map(|s| s.to_string()),
        description: None,
        pub_date: date.map(at),
    }
}

fn feed(items: Vec<Item>) -> RssFeed {
    RssFeed { channel: Channel { title: Some("News".to_string()), link: None, item: Some(items) } }
}

fn sample() -> RssFeed {
    feed(vec![
        item(Some("yesterday"), Some("https://a/1"), Some(NOW - DAY)),
        item(Some("ten days"), None, Some(NOW - 10 * DAY)),
        item(None, None, Some(NOW - 100 * DAY)),
        item(Some("undated"), None, None),
    ])
}

#[test]
fn period_days_and_cycle() {
    assert_eq!(Period::Week.to_days(), 7);
    assert_eq!(Period::TwoWeeks.to_days(), 14);
    assert_eq!(Period::Month.to_days(), 30);
    assert_eq!(Period::Year.to_days(), 365);
    let mut p = Period::Month;
    for _ in 0..4 {
        p = p.next();
    }
    assert_eq!(p, Period::Month);
    assert_eq!(Period::Year.next(), Period::Week);
    assert!(Period::Week.next().to_days() > Period::Week.to_days());
}

#[test]
fn focus_moves_between_boxes() {
    let mut form = AddFeedForm::new();
    assert_eq!(form.focused, Field::Title);
    form.focus_next();
    assert_eq!(form.focused, Field::Link);
    form.focus_next();
    assert_eq!(form.focused, Field::Title);
    assert_eq!(form.title, vec![String::new()]);
}

#[test]
fn week_lists_recent_and_undated_items() {
    let f = sample();
    let now = at(NOW);
    assert_eq!(title_list_items_at(&f, &Period::Week, &now), vec!["yesterday", "undated"]);
    assert_eq!(date_list_items_at(&f, &Period::Week, &now), vec!["14-05-2015 00:00", "No date"]);
}

#[test]
fn year_lists_every_item_and_names_untitled_ones() {
    let f = sample();
    let now = at(NOW);
    assert_eq!(
        title_list_items_at(&f, &Period::Year, &now),
        vec!["yesterday", "ten days", "Untitled", "undated"]
    );
    assert_eq!(
        date_list_items_at(&f, &Period::Year, &now),
        vec!["14-05-2015 00:00", "05-05-2015 00:00", "04-02-2015 00:00", "No date"]
    );
}

#[test]
fn longer_periods_list_more_and_columns_line_up() {
    let f = sample();
    let now = at(NOW);
    let mut last = 0;
    for p in [Period::Week, Period::TwoWeeks, Period::Month, Period::Year] {
        let t = title_list_items_at(&f, &p, &now);
        let d = date_list_items_at(&f, &p, &now);
        assert_eq!(t.len(), d.len());
        assert!(t.len() >= last);
        last = t.len();
    }
    assert_eq!(last, 4);
}

#[test]
fn period_boundary_is_inclusive() {
    let now = at(NOW);
    let exactly = item(Some("edge"), None, Some(NOW - 7 * DAY));
    assert!(item_in_period(&exactly, &now, 7));
    let older = Item { pub_date: Timestamp::from_unix(NOW - 7 * DAY - 1, 999_999_999), ..item(None, None, None) };
    assert!(!item_in_period(&older, &now, 7));
    let later_now = Timestamp::from_unix(NOW, 1).unwrap();
    assert!(!item_in_period(&exactly, &later_now, 7));
}

#[test]
fn future_items_are_listed() {
    let now = at(NOW);
    let future = item(Some("tomorrow"), None, Some(NOW + DAY));
    assert!(item_in_period(&future, &now, 7));
}

#[test]
fn durations_as_chrono_reckons_them() {
    let a = Timestamp::from_unix(NOW, 500_000_000).unwrap();
    let b = at(NOW - 2);
    assert_eq!(duration_since(&a, &b), (2, 500_000_000));
    assert_eq!(duration_since(&b, &a), (-2, -500_000_000));
    assert!(within_days((7 * DAY, 0), 7));
    assert!(!within_days((7 * DAY, 1), 7));
    assert!(within_days((-7 * DAY, -5), 7));
}

#[test]
fn feed_without_items_lists_nothing() {
    let f = RssFeed { channel: Channel { title: None, link: None, item: None } };
    let now = at(NOW);
    assert!(title_list_items_at(&f, &Period::Year, &now).is_empty());
    assert!(date_list_items_at(&f, &Period::Year, &now).is_empty());
}

#[test]
fn lists_read_at_the_clock() {
    let f = feed(vec![item(Some("old"), None, Some(0)), item(Some("undated"), None, None)]);
    assert_eq!(get_title_list_items(&f, &Period::Year), vec!["undated"]);
    assert_eq!(get_date_list_items(&f, &Period::Year), vec!["No date"]);
}

#[test]
fn details_of_an_item() {
    let f = feed(vec![
        Item {
            title: Some("T".to_string()),
            link: Some("L".to_string()),
            description: Some("D".to_string()),
            pub_date: Some(at(NOW + 3600 + 60 * 5)),
        },
        item(None, None, None),
    ]);
    assert_eq!(
        item_details_text(&f, Some(0)).unwrap(),
        "Title: T\n\nLink: L\n\nDescription: D\n\nDate Published: 15-05-2015 01:05"
    );
    assert_eq!(
        item_details_text(&f, Some(1)).unwrap(),
        "Title: No Title Available\n\nLink: No Link Available\n\nDescription: No Description Available\n\nDate Published: 01-01-1970 00:00"
    );
    assert!(item_details_text(&f, Some(2)).is_none());
    assert!(item_details_text(&f, None).is_none());
}

#[test]
fn heading_and_period_texts() {
    assert_eq!(list_title("News", Some(2), 10), "News  3/10");
    assert_eq!(list_title("News", None, 0), "News  1/0");
    assert_eq!(period_label(&Period::Year), "365");
    assert_eq!(period_label(&Period::Week), "7");
}

#[test]
fn decimal_numerals() {
    assert_eq!(decimal_string(0), "0");
    assert_eq!(decimal_string(9), "9");
    assert_eq!(decimal_string(10), "10");
    assert_eq!(decimal_string(usize::MAX), usize::MAX.to_string());
}

#[test]
fn joined_and_trimmed_form_text() {
    let lines = vec!["  My".to_string(), "Feed \t".to_string()];
    let j = joined_lines(&lines);
    assert_eq!(j, "  My\nFeed \t");
    assert_eq!(trimmed(&j), "My\nFeed");
    assert_eq!(trimmed("\u{3000} x \u{a0}"), "x");
    assert_eq!(joined_lines(&vec![]), "");
}

#[test]
fn empty_feed_message() {
    let mut m = String::from("old");
    empty_feed_check(&vec![], &mut m);
    assert_eq!(m, "Feed is empty!");
    empty_feed_check(&vec!["a".to_string()], &mut m);
    assert_eq!(m, " ");
}

#[test]
fn cache_keeps_fetched_feeds_in_order() {
    let results = vec![
        Ok(feed(vec![item(Some("a"), None, None)])),
        Err("timeout".to_string()),
        Ok(feed(vec![item(Some("b"), None, None)])),
    ];
    let cache = build_feed_cache(results);
    assert_eq!(cache.len(), 2);
    let now = at(NOW);
    assert_eq!(title_list_items_at(&cache[0], &Period::Year, &now), vec!["a"]);
    assert_eq!(title_list_items_at(&cache[1], &Period::Year, &now), vec!["b"]);
}

#[test]
fn rfc2822_dates() {
    assert!(matches!(deserialize_rfc2822(None), Ok(None)));
    let t = deserialize_rfc2822(Some("Wed, 18 Feb 2015 23:16:09 GMT".to_string())).unwrap().unwrap();
    assert_eq!((t.secs(), t.nanos()), (1_424_301_369, 0));
    let t = deserialize_rfc2822(Some("Wed, 18 Feb 2015 23:16:09 +0100".to_string())).unwrap().unwrap();
    assert_eq!(t.secs(), 1_424_297_769);
    assert!(deserialize_rfc2822(Some("yesterday".to_string())).is_err());
}

#[test]
fn unix_times_chrono_cannot_hold() {
    assert!(Timestamp::from_unix(i64::MAX, 0).is_none());
    assert!(Timestamp::from_unix(0, 2_000_000_000).is_none());
    let t = Timestamp::from_unix(59, 1_500_000_000).unwrap();
    assert_eq!((t.secs(), t.nanos()), (59, 1_500_000_000));
}

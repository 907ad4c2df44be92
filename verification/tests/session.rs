use rss_client::config::{Config, ConfigFeed};
use rss_client::request::{Channel, Item, RssFeed};
use rss_client::session::{App, Command, Key};
use rss_client::ui::{Field, Period};
use rss_client::Timestamp;

fn sub(title: &str, link: &str) -> ConfigFeed {
    ConfigFeed { link: link.to_string(), title: title.to_string() }
}

fn undated(title: &str, link: Option<&str>) -> Item {
    Item { title: Some(title.to_string()), link: link.map(|l| l.to_string()), description: None, pub_date: None }
}

fn feed(items: Vec<Item>) -> RssFeed {
    RssFeed { channel: Channel { title: None, link: None, item: Some(items) } }
}

fn two_feeds() -> App {
    let config = Config { feeds: vec![sub("First", "https://one"), sub("Second", "https://two")] };
    let cache = vec![
        feed(vec![undated("a1", Some("https://one/a1")), undated("a2", None)]),
        feed(vec![]),
    ];
    App::start(config, cache)
}

fn press(app: &mut App, key: Key) -> Command {
    assert!(!app.would_panic(key));
    app.handle_key(key)
}

#[test]
fn start_without_feeds() {
    let app = App::start(Config::from_loaded(None), vec![]);
    assert_eq!(app.message, "Feed is empty!");
    assert!(app.titles.is_empty());
    assert_eq!(app.channel_title, "");
    assert_eq!(app.period, Period::Year);
    assert_eq!(app.items_selected, Some(0));
    assert_eq!(app.channels_selected, Some(0));
}

#[test]
fn start_with_feeds() {
    let app = two_feeds();
    assert_eq!(app.titles, vec!["a1", "a2"]);
    assert_eq!(app.dates, vec!["No date", "No date"]);
    assert_eq!(app.message, " ");
    assert_eq!(app.channel_title, "First");
    assert_eq!(app.form.focused, Field::Title);
}

#[test]
fn quit_keys() {
    let mut app = two_feeds();
    assert!(matches!(press(&mut app, Key::Char('q')), Command::Quit));
    assert!(matches!(press(&mut app, Key::Esc), Command::Quit));
}

#[test]
fn right_then_left_returns_to_the_feed() {
    let mut app = two_feeds();
    press(&mut app, Key::Right);
    assert_eq!(app.feed_index, 1);
    assert_eq!(app.channel_title, "Second");
    assert_eq!(app.message, "Feed is empty!");
    press(&mut app, Key::Right);
    assert_eq!(app.feed_index, 0);
    press(&mut app, Key::Left);
    assert_eq!(app.feed_index, 1);
    press(&mut app, Key::Left);
    assert_eq!(app.feed_index, 0);
    assert_eq!(app.titles, vec!["a1", "a2"]);
}

#[test]
fn moving_through_items() {
    let mut app = two_feeds();
    press(&mut app, Key::Down);
    assert_eq!(app.items_selected, Some(1));
    press(&mut app, Key::Up);
    press(&mut app, Key::Up);
    assert_eq!(app.items_selected, Some(0));
    app.items_selected = None;
    press(&mut app, Key::Up);
    assert_eq!(app.items_selected, Some(usize::MAX));
    press(&mut app, Key::Down);
    assert_eq!(app.items_selected, Some(usize::MAX));
}

#[test]
fn period_key_cycles() {
    let mut app = two_feeds();
    press(&mut app, Key::Down);
    press(&mut app, Key::Char('t'));
    assert_eq!(app.period, Period::Week);
    assert_eq!(app.items_selected, Some(0));
    for _ in 0..3 {
        press(&mut app, Key::Char('t'));
    }
    assert_eq!(app.period, Period::Year);
}

#[test]
fn open_link_or_say_why_not() {
    let mut app = two_feeds();
    match press(&mut app, Key::Char('o')) {
        Command::OpenLink(l) => assert_eq!(l, "https://one/a1"),
        _ => panic!("expected a link"),
    }
    press(&mut app, Key::Down);
    assert!(matches!(press(&mut app, Key::Char('o')), Command::Stay));
    assert_eq!(app.message, "Could not open the link!");
}

#[test]
fn details_and_popups_toggle() {
    let mut app = two_feeds();
    press(&mut app, Key::Enter);
    assert!(app.details_popup);
    press(&mut app, Key::Enter);
    assert!(!app.details_popup);
    press(&mut app, Key::Char('l'));
    assert!(app.channel_list_popup);
    app.channels_selected = Some(1);
    press(&mut app, Key::Char('l'));
    assert!(!app.channel_list_popup);
    assert_eq!(app.channels_selected, Some(0));
}

#[test]
fn choosing_a_feed_from_the_list() {
    let mut app = two_feeds();
    press(&mut app, Key::Char('l'));
    press(&mut app, Key::Down);
    assert!(matches!(press(&mut app, Key::Enter), Command::Stay));
    assert!(!app.channel_list_popup);
    assert_eq!(app.feed_index, 1);
    assert_eq!(app.channel_title, "Second");
    assert!(app.titles.is_empty());
}

#[test]
fn deleting_and_saving_from_the_list() {
    let mut app = two_feeds();
    press(&mut app, Key::Char('l'));
    press(&mut app, Key::Delete);
    assert_eq!(app.config.feeds.len(), 1);
    assert_eq!(app.config.feeds[0].title, "Second");
    assert!(matches!(press(&mut app, Key::Char('s')), Command::SaveConfig));
    assert_eq!(app.message, "Config saved!");
    app.channels_selected = None;
    assert!(app.would_panic(Key::Delete));
    assert!(app.would_panic(Key::Enter));
}

#[test]
fn submitting_the_form_subscribes() {
    let mut app = two_feeds();
    press(&mut app, Key::Char('n'));
    assert!(app.new_channel_popup);
    assert!(matches!(press(&mut app, Key::Char('x')), Command::EditForm(Field::Title)));
    app.form.title = vec!["  Third ".to_string()];
    press(&mut app, Key::Tab);
    assert!(matches!(press(&mut app, Key::Char('l')), Command::EditForm(Field::Link)));
    app.form.link = vec!["https://three".to_string(), "".to_string()];
    match press(&mut app, Key::Enter) {
        Command::Refetch { save_first } => assert!(save_first),
        _ => panic!("expected a refetch"),
    }
    assert!(!app.new_channel_popup);
    assert_eq!(app.message, "New feed added succesfully!");
    assert_eq!(app.config.feeds.len(), 3);
    assert_eq!(app.config.feeds[2].title, "Third");
    assert_eq!(app.config.feeds[2].link, "https://three");
    app.feeds_refetched(vec![feed(vec![undated("new", None)])]);
    assert_eq!(app.titles, vec!["new"]);
}

#[test]
fn empty_form_adds_nothing() {
    let mut app = two_feeds();
    press(&mut app, Key::Char('n'));
    app.form.title = vec!["   ".to_string()];
    app.form.link = vec!["https://x".to_string()];
    match press(&mut app, Key::Enter) {
        Command::Refetch { save_first } => assert!(!save_first),
        _ => panic!("expected a refetch"),
    }
    assert_eq!(app.config.feeds.len(), 2);
}

#[test]
fn leaving_the_form_keeps_its_text() {
    let mut app = two_feeds();
    press(&mut app, Key::Char('n'));
    app.form.title = vec!["draft".to_string()];
    assert!(matches!(press(&mut app, Key::Char('q')), Command::Stay));
    assert!(!app.new_channel_popup);
    assert_eq!(app.message, "Form saved!");
    assert_eq!(app.form.title, vec!["draft"]);
}

#[test]
fn refresh_asks_for_feeds() {
    let mut app = two_feeds();
    assert!(matches!(press(&mut app, Key::Char('r')), Command::Refetch { save_first: false }));
    assert_eq!(app.message, "Refreshed!");
}

#[test]
fn keys_that_panic() {
    let mut app = two_feeds();
    app.config.feeds.clear();
    assert!(app.would_panic(Key::Right));
    assert!(app.would_panic(Key::Left));
    let mut empty = App::start(Config { feeds: vec![] }, vec![]);
    assert!(empty.would_panic(Key::Char('t')));
    assert!(!empty.would_panic(Key::Right));
    assert!(matches!(empty.handle_key(Key::Right), Command::Stay));
    let _ = Timestamp::from_unix(0, 0);
}

#[test]
fn one_popup_at_a_time() {
    let mut app = two_feeds();
    press(&mut app, Key::Char('n'));
    assert!(matches!(press(&mut app, Key::Char('l')), Command::EditForm(Field::Title)));
    assert!(!app.channel_list_popup);
    press(&mut app, Key::Esc);
    press(&mut app, Key::Char('l'));
    assert!(matches!(press(&mut app, Key::Char('n')), Command::Stay));
    assert!(!app.new_channel_popup);
    assert!(app.channel_list_popup);
}

#[test]
fn other_keys_keep_subscriptions() {
    let mut app = two_feeds();
    for key in [Key::Down, Key::Char('t'), Key::Right, Key::Enter, Key::Char('r'), Key::Other] {
        press(&mut app, key);
        assert_eq!(app.config.feeds.len(), 2);
        assert!(app.feed_index < app.feed_cache.len());
    }
}

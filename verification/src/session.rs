//! The decisions of the reader's interface: its state, how each key press
//! changes it, and the outside work (saving, fetching, opening a link) that
//! a key press asks for.

use crate::config::{feeds_view, Config, ConfigFeed, ConfigFeedView};
use crate::request::{channel_items, RssFeed};
use crate::text::{join_lines, joined_lines, trim, trimmed};
use crate::ui::{
    date_list, empty_feed_check, field_after, get_date_list_items, get_title_list_items,
    period_after, title_list, AddFeedForm, Field, Period,
};
use vstd::prelude::*;

verus! {

/// A key press, as the interface tells keys apart.
#[derive(Clone, Copy, PartialEq, Eq, Structural, Debug)]
pub enum Key {
    Char(char),
    Esc,
    Tab,
    Enter,
    Up,
    Down,
    Left,
    Right,
    Delete,
    Other,
}

/// The outside work a key press asks of the program running the interface.
pub enum Command {
    /// Nothing: draw the screen again and wait for the next key.
    Stay,
    /// Leave the interface.
    Quit,
    /// Hand the key to the text box of the form named.
    EditForm(Field),
    /// Write the configuration to disk; a failure ends the interface with it.
    SaveConfig,
    /// Fetch every subscribed feed again, after writing the configuration
    /// (ignoring a failure) where `save_first` holds, then pass the feeds to
    /// `App::feeds_refetched`.
    Refetch { save_first: bool },
    /// Open the link in the desktop's handler, off the interface's thread.
    OpenLink(String),
}

/// A command, its link as text.
pub enum CommandView {
    Stay,
    Quit,
    EditForm(Field),
    SaveConfig,
    Refetch { save_first: bool },
    OpenLink(Seq<char>),
}

impl View for Command {
    type V = CommandView;

    open spec fn view(&self) -> CommandView {
        match self {
            Command::Stay => CommandView::Stay,
            Command::Quit => CommandView::Quit,
            Command::EditForm(f) => CommandView::EditForm(*f),
            Command::SaveConfig => CommandView::SaveConfig,
            Command::Refetch { save_first } => CommandView::Refetch { save_first: *save_first },
            Command::OpenLink(l) => CommandView::OpenLink(l@),
        }
    }
}

/// The state of the interface.
pub struct App {
    /// The subscribed feeds.
    pub config: Config,
    /// The message line.
    pub message: String,
    /// Which fetched feed the item lists show.
    pub feed_index: usize,
    /// The selected row of the item lists.
    pub items_selected: Option<usize>,
    /// The selected row of the feed list.
    pub channels_selected: Option<usize>,
    /// How far back the item lists reach.
    pub period: Period,
    /// The feeds fetched, in the order of the subscriptions that could be fetched.
    pub feed_cache: Vec<RssFeed>,
    /// The title column.
    pub titles: Vec<String>,
    /// The date column.
    pub dates: Vec<String>,
    /// The name of the feed shown.
    pub channel_title: String,
    /// Whether the details of the selected item are shown.
    pub details_popup: bool,
    /// Whether the new-feed form is shown.
    pub new_channel_popup: bool,
    /// Whether the feed list is shown.
    pub channel_list_popup: bool,
    /// The new-feed form.
    pub form: AddFeedForm,
}

/// The state of the interface, as values.
#[verifier::ext_equal]
pub struct AppView {
    pub feeds: Seq<ConfigFeedView>,
    pub message: Seq<char>,
    pub feed_index: usize,
    pub items_selected: Option<usize>,
    pub channels_selected: Option<usize>,
    pub period: Period,
    pub feed_cache: Seq<RssFeed>,
    pub titles: Seq<Seq<char>>,
    pub dates: Seq<Seq<char>>,
    pub channel_title: Seq<char>,
    pub details_popup: bool,
    pub new_channel_popup: bool,
    pub channel_list_popup: bool,
    pub form_title: Seq<Seq<char>>,
    pub form_link: Seq<Seq<char>>,
    pub focused: Field,
}

impl View for App {
    type V = AppView;

    open spec fn view(&self) -> AppView {
        AppView {
            feeds: self.config@,
            message: self.message@,
            feed_index: self.feed_index,
            items_selected: self.items_selected,
            channels_selected: self.channels_selected,
            period: self.period,
            feed_cache: self.feed_cache@,
            titles: self.titles.deep_view(),
            dates: self.dates.deep_view(),
            channel_title: self.channel_title@,
            details_popup: self.details_popup,
            new_channel_popup: self.new_channel_popup,
            channel_list_popup: self.channel_list_popup,
            form_title: self.form.title.deep_view(),
            form_link: self.form.link.deep_view(),
            focused: self.form.focused,
        }
    }
}

/// The selection after moving down a list: the first row where none is
/// selected, else the next row (without passing `usize::MAX`); drawing the
/// list brings a selection past its end back to its last row.
pub open spec fn selection_after_next(sel: Option<usize>) -> Option<usize> {
    Some(
        match sel {
            None => 0,
            Some(i) => if i == usize::MAX {
                usize::MAX
            } else {
                (i + 1) as usize
            },
        },
    )
}

/// The selection after moving up a list: `usize::MAX` (the last row, once
/// drawn) where none is selected, else the previous row (staying at the first).
pub open spec fn selection_after_previous(sel: Option<usize>) -> Option<usize> {
    Some(
        match sel {
            None => usize::MAX,
            Some(i) => if i == 0 {
                0
            } else {
                (i - 1) as usize
            },
        },
    )
}

/// `ListState::select_next`: the selection after moving down a list.
pub fn select_next(sel: Option<usize>) -> (r: Option<usize>)
    ensures
        r == selection_after_next(sel),
{
    match sel {
        None => Some(0),
        Some(i) => Some(i.saturating_add(1)),
    }
}

/// `ListState::select_previous`: the selection after moving up a list.
pub fn select_previous(sel: Option<usize>) -> (r: Option<usize>)
    ensures
        r == selection_after_previous(sel),
{
    match sel {
        None => Some(usize::MAX),
        Some(i) => Some(i.saturating_sub(1)),
    }
}

/// The message after the item lists change.
pub open spec fn list_message(titles: Seq<Seq<char>>) -> Seq<char> {
    if titles.len() == 0 {
        "Feed is empty!"@
    } else {
        " "@
    }
}

/// The state with the item lists of the shown feed and period read again,
/// the titles at instant `tn` and the dates at instant `dn`.
pub open spec fn with_lists(s: AppView, tn: (i64, u32), dn: (i64, u32)) -> AppView {
    AppView {
        titles: title_list(s.feed_cache[s.feed_index as int], s.period, tn),
        dates: date_list(s.feed_cache[s.feed_index as int], s.period, dn),
        ..s
    }
}

/// The state with the feeds fetched anew.
pub open spec fn with_cache(s: AppView, cache: Seq<RssFeed>) -> AppView {
    AppView { feed_cache: cache, ..s }
}

/// The state with the message set for its title column.
pub open spec fn with_list_message(s: AppView) -> AppView {
    AppView { message: list_message(s.titles), ..s }
}

/// The state after turning to the fetched feed at `i`: its lists read again,
/// the message set, its name shown and the first row selected.
pub open spec fn turned_to(s: AppView, i: usize, tn: (i64, u32), dn: (i64, u32)) -> AppView {
    AppView {
        channel_title: s.feeds[i as int].title,
        items_selected: Some(0),
        ..with_list_message(with_lists(AppView { feed_index: i, ..s }, tn, dn))
    }
}

/// The title the form submits: its title lines joined and trimmed.
pub open spec fn submitted_title(s: AppView) -> Seq<char> {
    trim(join_lines(s.form_title))
}

/// The link the form submits: its link lines joined and trimmed.
pub open spec fn submitted_link(s: AppView) -> Seq<char> {
    trim(join_lines(s.form_link))
}

/// Whether submitting the form subscribes to a feed: neither text is empty.
pub open spec fn form_adds(s: AppView) -> bool {
    submitted_title(s).len() > 0 && submitted_link(s).len() > 0
}

/// A key press while the new-feed form is shown.
pub open spec fn form_step(s: AppView, key: Key) -> (AppView, CommandView) {
    match key {
        Key::Esc | Key::Char('q') => (
            AppView { new_channel_popup: false, message: "Form saved!"@, ..s },
            CommandView::Stay,
        ),
        Key::Tab => (AppView { focused: field_after(s.focused), ..s }, CommandView::Stay),
        Key::Enter => (
            AppView {
                feeds: if form_adds(s) {
                    s.feeds.push(ConfigFeedView { link: submitted_link(s), title: submitted_title(s) })
                } else {
                    s.feeds
                },
                new_channel_popup: false,
                message: "New feed added succesfully!"@,
                ..s
            },
            CommandView::Refetch { save_first: form_adds(s) },
        ),
        _ => (s, CommandView::EditForm(s.focused)),
    }
}

/// A key press while the feed list is shown.
pub open spec fn feed_list_step(s: AppView, key: Key, tn: (i64, u32), dn: (i64, u32)) -> (
    AppView,
    CommandView,
) {
    match key {
        Key::Up => (
            AppView { channels_selected: selection_after_previous(s.channels_selected), ..s },
            CommandView::Stay,
        ),
        Key::Down => (
            AppView { channels_selected: selection_after_next(s.channels_selected), ..s },
            CommandView::Stay,
        ),
        Key::Char('l') | Key::Char('q') | Key::Esc => (
            AppView { channel_list_popup: false, channels_selected: Some(0), ..s },
            CommandView::Stay,
        ),
        Key::Enter => (
            turned_to(AppView { channel_list_popup: false, ..s }, s.channels_selected->0, tn, dn),
            CommandView::Stay,
        ),
        Key::Delete => (
            AppView { feeds: s.feeds.remove(s.channels_selected->0 as int), ..s },
            CommandView::Stay,
        ),
        Key::Char('s') => (AppView { message: "Config saved!"@, ..s }, CommandView::SaveConfig),
        _ => (s, CommandView::Stay),
    }
}

/// The feed shown after moving right through the subscriptions.
pub open spec fn index_after_right(s: AppView) -> usize {
    ((s.feed_index + 1) % (s.feeds.len() as int)) as usize
}

/// The feed shown after moving left through the subscriptions.
pub open spec fn index_after_left(s: AppView) -> usize {
    ((s.feed_index + s.feeds.len() - 1) % (s.feeds.len() as int)) as usize
}

/// A key press on the item screen, with no form or list shown.
pub open spec fn main_step(s: AppView, key: Key, tn: (i64, u32), dn: (i64, u32)) -> (
    AppView,
    CommandView,
) {
    match key {
        Key::Char('q') | Key::Esc => (s, CommandView::Quit),
        Key::Up => (
            AppView { items_selected: selection_after_previous(s.items_selected), ..s },
            CommandView::Stay,
        ),
        Key::Down => (
            AppView { items_selected: selection_after_next(s.items_selected), ..s },
            CommandView::Stay,
        ),
        Key::Right => if s.feed_cache.len() == 0 {
            (s, CommandView::Stay)
        } else {
            (turned_to(s, index_after_right(s), tn, dn), CommandView::Stay)
        },
        Key::Left => if s.feed_cache.len() == 0 {
            (s, CommandView::Stay)
        } else {
            (turned_to(s, index_after_left(s), tn, dn), CommandView::Stay)
        },
        Key::Enter => (AppView { details_popup: !s.details_popup, ..s }, CommandView::Stay),
        Key::Char('t') => (
            AppView {
                items_selected: Some(0),
                ..with_list_message(with_lists(AppView { period: period_after(s.period), ..s }, tn, dn))
            },
            CommandView::Stay,
        ),
        Key::Char('n') => (
            AppView { new_channel_popup: !s.new_channel_popup, ..s },
            CommandView::Stay,
        ),
        Key::Char('l') => (
            AppView { channel_list_popup: !s.channel_list_popup, ..s },
            CommandView::Stay,
        ),
        Key::Char('o') => match s.items_selected {
            None => (s, CommandView::Stay),
            Some(index) => {
                let items = channel_items(s.feed_cache[s.feed_index as int]);
                if s.feed_cache[s.feed_index as int].channel.item is Some && index < items.len() {
                    match items[index as int].link {
                        Some(link) => (s, CommandView::OpenLink(link@)),
                        None => (
                            AppView { message: "Could not open the link!"@, ..s },
                            CommandView::Stay,
                        ),
                    }
                } else {
                    (s, CommandView::Stay)
                }
            },
        },
        Key::Char('r') => (
            AppView { message: "Refreshed!"@, ..s },
            CommandView::Refetch { save_first: false },
        ),
        _ => (s, CommandView::Stay),
    }
}

/// A key press: the form takes it when shown, else the feed list when
/// shown, else the item screen. The item lists, where read again, are read
/// at instants `tn` (titles) and `dn` (dates).
pub open spec fn key_step(s: AppView, key: Key, tn: (i64, u32), dn: (i64, u32)) -> (
    AppView,
    CommandView,
) {
    if s.new_channel_popup {
        form_step(s, key)
    } else if s.channel_list_popup {
        feed_list_step(s, key, tn, dn)
    } else {
        main_step(s, key, tn, dn)
    }
}

/// Whether the key press makes the interface panic: it indexes past a list,
/// unwraps a missing selection, or its arithmetic overflows or divides by zero.
pub open spec fn key_panics(s: AppView, key: Key) -> bool {
    if s.new_channel_popup {
        false
    } else if s.channel_list_popup {
        match key {
            Key::Enter => match s.channels_selected {
                None => true,
                Some(i) => i >= s.feed_cache.len() || i >= s.feeds.len(),
            },
            Key::Delete => match s.channels_selected {
                None => true,
                Some(i) => i >= s.feeds.len(),
            },
            _ => false,
        }
    } else {
        match key {
            Key::Right => s.feed_cache.len() > 0 && (s.feeds.len() == 0 || s.feed_index
                == usize::MAX || index_after_right(s) >= s.feed_cache.len()),
            Key::Left => s.feed_cache.len() > 0 && (s.feeds.len() == 0 || s.feed_index
                + s.feeds.len() > usize::MAX || index_after_left(s) >= s.feed_cache.len()),
            Key::Char('t') => s.feed_index >= s.feed_cache.len(),
            Key::Char('o') => s.items_selected is Some && s.feed_index >= s.feed_cache.len(),
            _ => false,
        }
    }
}

/// The state the interface starts in, with the subscriptions `feeds` and the
/// feeds fetched from them, the lists read at instants `tn` and `dn`.
pub open spec fn initial_view(
    feeds: Seq<ConfigFeedView>,
    cache: Seq<RssFeed>,
    tn: (i64, u32),
    dn: (i64, u32),
) -> AppView {
    let titles = if cache.len() > 0 {
        title_list(cache[0], Period::Year, tn)
    } else {
        seq![]
    };
    AppView {
        feeds,
        message: list_message(titles),
        feed_index: 0,
        items_selected: Some(0),
        channels_selected: Some(0),
        period: Period::Year,
        feed_cache: cache,
        titles,
        dates: if cache.len() > 0 {
            date_list(cache[0], Period::Year, dn)
        } else {
            seq![]
        },
        channel_title: if feeds.len() > 0 {
            feeds[0].title
        } else {
            seq![]
        },
        details_popup: false,
        new_channel_popup: false,
        channel_list_popup: false,
        form_title: seq![Seq::<char>::empty()],
        form_link: seq![Seq::<char>::empty()],
        focused: Field::Title,
    }
}


impl App {
    /// The interface as it starts, with the configuration read at launch and
    /// the feeds that could be fetched from it (see `build_feed_cache`): the
    /// first feed shown for a year, its first row and the first subscription
    /// selected, no form or list shown.
    pub fn start(config: Config, feed_cache: Vec<RssFeed>) -> (r: App)
        ensures
            exists|tn: (i64, u32), dn: (i64, u32)|
                #[trigger] initial_view(config@, feed_cache@, tn, dn) == r@,
    {
        let ghost feeds = config@;
        let ghost cache = feed_cache@;
        let mut message = String::new();
        let feed_index: usize = 0;
        let mut items_selected: Option<usize> = None;
        let mut channels_selected: Option<usize> = None;
        channels_selected = Some(0);
        let period = Period::Year;
        if feed_cache.len() == 0 {
            message = String::from_str("Failed to load feeds!");
        }
        items_selected = Some(0);
        let titles = if feed_cache.len() != 0 {
            get_title_list_items(&feed_cache[feed_index], &period)
        } else {
            Vec::new()
        };
        let dates = if feed_cache.len() != 0 {
            get_date_list_items(&feed_cache[feed_index], &period)
        } else {
            Vec::new()
        };
        empty_feed_check(&titles, &mut message);
        let channel_title = if feed_index < config.feeds.len() {
            config.feeds[feed_index].title.clone()
        } else {
            String::new()
        };
        let app = App {
            config,
            message,
            feed_index,
            items_selected,
            channels_selected,
            period,
            feed_cache,
            titles,
            dates,
            channel_title,
            details_popup: false,
            new_channel_popup: false,
            channel_list_popup: false,
            form: AddFeedForm::new(),
        };
        proof {
            let tn = if cache.len() > 0 {
                choose|t: (i64, u32)| #[trigger] title_list(cache[0], Period::Year, t) == app.titles.deep_view()
            } else {
                (0i64, 0u32)
            };
            let dn = if cache.len() > 0 {
                choose|t: (i64, u32)| #[trigger] date_list(cache[0], Period::Year, t) == app.dates.deep_view()
            } else {
                (0i64, 0u32)
            };
            assert(app.titles.deep_view() =~= initial_view(feeds, cache, tn, dn).titles);
            assert(app.dates.deep_view() =~= initial_view(feeds, cache, tn, dn).dates);
            assert(initial_view(feeds, cache, tn, dn) =~= app@);
        }
        app
    }

    /// Reads the item lists of the shown feed again, each at the clock's
    /// instant.
    fn reload_lists(&mut self)
        requires
            old(self).feed_index < old(self).feed_cache.len(),
        ensures
            exists|tn: (i64, u32), dn: (i64, u32)| #[trigger] with_lists(old(self)@, tn, dn) == final(self)@,
            final(self).config == old(self).config,
            final(self).feed_index == old(self).feed_index,
            final(self).feed_cache == old(self).feed_cache,
    {
        let titles = get_title_list_items(&self.feed_cache[self.feed_index], &self.period);
        let dates = get_date_list_items(&self.feed_cache[self.feed_index], &self.period);
        self.titles = titles;
        self.dates = dates;
        proof {
            let s = old(self)@;
            let tn = choose|t: (i64, u32)|
                #[trigger] title_list(s.feed_cache[s.feed_index as int], s.period, t) == self.titles.deep_view();
            let dn = choose|t: (i64, u32)|
                #[trigger] date_list(s.feed_cache[s.feed_index as int], s.period, t) == self.dates.deep_view();
            assert(with_lists(s, tn, dn) =~= self@);
        }
    }

    /// Shows the lists of the feed at `feed_index`: reads them again, sets
    /// the message, shows the subscription's name and selects the first row.
    fn turn_to_feed(&mut self)
        requires
            old(self).feed_index < old(self).feed_cache.len(),
            old(self).feed_index < old(self).config.feeds.len(),
        ensures
            exists|tn: (i64, u32), dn: (i64, u32)|
                #[trigger] turned_to(old(self)@, old(self).feed_index, tn, dn) == final(self)@,
    {
        let ghost s = self@;
        self.reload_lists();
        let ghost mid = self@;
        empty_feed_check(&self.titles, &mut self.message);
        self.channel_title = self.config.feeds[self.feed_index].title.clone();
        self.items_selected = Some(0);
        proof {
            let (tn, dn) = choose|tn: (i64, u32), dn: (i64, u32)| #[trigger] with_lists(s, tn, dn) == mid;
            assert(AppView { feed_index: s.feed_index, ..s } =~= s);
            assert(turned_to(s, s.feed_index, tn, dn) =~= self@);
        }
    }

    /// After a `Refetch` command: takes the feeds fetched anew and reads the
    /// item lists of the shown feed again.
    pub fn feeds_refetched(&mut self, feeds: Vec<RssFeed>)
        requires
            old(self).feed_index < feeds.len(),
        ensures
            exists|tn: (i64, u32), dn: (i64, u32)|
                #[trigger] with_lists(with_cache(old(self)@, feeds@), tn, dn) == final(self)@,
    {
        let ghost s = with_cache(self@, feeds@);
        self.feed_cache = feeds;
        assert(self@ =~= s);
        self.reload_lists();
    }
}


impl App {
    /// A key press while the new-feed form is shown.
    fn form_key(&mut self, key: Key) -> (r: Command)
        ensures
            form_step(old(self)@, key).0 == final(self)@,
            form_step(old(self)@, key).1 == r@,
    {
        let ghost s = self@;
        match key {
            Key::Esc | Key::Char('q') => {
                self.new_channel_popup = false;
                self.message = String::from_str("Form saved!");
                assert(form_step(s, key).0 =~= self@);
                Command::Stay
            },
            Key::Tab => {
                self.form.focus_next();
                assert(form_step(s, key).0 =~= self@);
                Command::Stay
            },
            Key::Enter => {
                let title_text = joined_lines(&self.form.title);
                let title = trimmed(title_text.as_str());
                let link_text = joined_lines(&self.form.link);
                let link = trimmed(link_text.as_str());
                let adds = !title.as_str().is_empty() && !link.as_str().is_empty();
                assert(adds == form_adds(s));
                if adds {
                    let ghost before = self.config.feeds@;
                    let feed = ConfigFeed { title, link };
                    self.config.feeds.push(feed);
                    assert(feeds_view(self.config.feeds@) =~= feeds_view(before).push(feed@));
                }
                self.new_channel_popup = false;
                self.message = String::from_str("New feed added succesfully!");
                assert(form_step(s, key).0 =~= self@);
                Command::Refetch { save_first: adds }
            },
            _ => {
                assert(form_step(s, key).0 =~= self@);
                Command::EditForm(self.form.focused)
            },
        }
    }

    /// A key press while the feed list is shown.
    fn feed_list_key(&mut self, key: Key) -> (r: Command)
        requires
            !old(self).new_channel_popup,
            old(self).channel_list_popup,
            !key_panics(old(self)@, key),
        ensures
            exists|tn: (i64, u32), dn: (i64, u32)|
                #[trigger] feed_list_step(old(self)@, key, tn, dn) == (final(self)@, r@),
    {
        let ghost s = self@;
        let ghost mut tn: (i64, u32) = (0, 0);
        let ghost mut dn: (i64, u32) = (0, 0);
        let mut cmd = Command::Stay;
        match key {
            Key::Up => {
                self.channels_selected = select_previous(self.channels_selected);
            },
            Key::Down => {
                self.channels_selected = select_next(self.channels_selected);
            },
            Key::Char('l') | Key::Char('q') | Key::Esc => {
                self.channel_list_popup = !self.channel_list_popup;
                self.channels_selected = Some(0);
            },
            Key::Enter => {
                self.feed_index = self.channels_selected.unwrap();
                self.channel_list_popup = !self.channel_list_popup;
                let ghost mid = self@;
                self.turn_to_feed();
                proof {
                    let (a, b) = choose|a: (i64, u32), b: (i64, u32)|
                        #[trigger] turned_to(mid, mid.feed_index, a, b) == self@;
                    tn = a;
                    dn = b;
                    assert(AppView { feed_index: mid.feed_index, ..mid } =~= AppView {
                        feed_index: mid.feed_index,
                        ..AppView { channel_list_popup: false, ..s }
                    });
                }
            },
            Key::Delete => {
                let i = self.channels_selected.unwrap();
                let ghost before = self.config.feeds@;
                let _removed = self.config.feeds.remove(i);
                assert(feeds_view(self.config.feeds@) =~= feeds_view(before).remove(i as int));
            },
            Key::Char('s') => {
                self.message = String::from_str("Config saved!");
                cmd = Command::SaveConfig;
            },
            _ => {},
        }
        assert(feed_list_step(s, key, tn, dn).0 =~= self@);
        assert(feed_list_step(s, key, tn, dn) == (self@, cmd@));
        cmd
    }
}


impl App {
    /// A key press on the item screen.
    fn main_key(&mut self, key: Key) -> (r: Command)
        requires
            !old(self).new_channel_popup,
            !old(self).channel_list_popup,
            !key_panics(old(self)@, key),
        ensures
            exists|tn: (i64, u32), dn: (i64, u32)|
                #[trigger] main_step(old(self)@, key, tn, dn) == (final(self)@, r@),
    {
        let ghost s = self@;
        let ghost mut tn: (i64, u32) = (0, 0);
        let ghost mut dn: (i64, u32) = (0, 0);
        let mut cmd = Command::Stay;
        match key {
            Key::Char('q') | Key::Esc => {
                cmd = Command::Quit;
            },
            Key::Up => {
                self.items_selected = select_previous(self.items_selected);
            },
            Key::Down => {
                self.items_selected = select_next(self.items_selected);
            },
            Key::Right => {
                if self.feed_cache.len() != 0 {
                    self.feed_index = (self.feed_index + 1) % self.config.feeds.len();
                    let ghost mid = self@;
                    self.turn_to_feed();
                    proof {
                        let (a, b) = choose|a: (i64, u32), b: (i64, u32)|
                            #[trigger] turned_to(mid, mid.feed_index, a, b) == self@;
                        tn = a;
                        dn = b;
                        assert(AppView { feed_index: mid.feed_index, ..mid } =~= AppView {
                            feed_index: index_after_right(s),
                            ..s
                        });
                    }
                }
            },
            Key::Left => {
                if self.feed_cache.len() != 0 {
                    self.feed_index = (self.feed_index + self.config.feeds.len() - 1)
                        % self.config.feeds.len();
                    let ghost mid = self@;
                    self.turn_to_feed();
                    proof {
                        let (a, b) = choose|a: (i64, u32), b: (i64, u32)|
                            #[trigger] turned_to(mid, mid.feed_index, a, b) == self@;
                        tn = a;
                        dn = b;
                        assert(AppView { feed_index: mid.feed_index, ..mid } =~= AppView {
                            feed_index: index_after_left(s),
                            ..s
                        });
                    }
                }
            },
            Key::Enter => {
                self.details_popup = !self.details_popup;
            },
            Key::Char('t') => {
                self.period = self.period.next();
                let ghost mid = self@;
                self.reload_lists();
                let ghost after = self@;
                empty_feed_check(&self.titles, &mut self.message);
                self.items_selected = Some(0);
                proof {
                    let (a, b) = choose|a: (i64, u32), b: (i64, u32)|
                        #[trigger] with_lists(mid, a, b) == after;
                    tn = a;
                    dn = b;
                    assert(mid =~= AppView { period: period_after(s.period), ..s });
                }
            },
            Key::Char('n') => {
                self.new_channel_popup = !self.new_channel_popup;
            },
            Key::Char('l') => {
                self.channel_list_popup = !self.channel_list_popup;
            },
            Key::Char('o') => {
                if let Some(index) = self.items_selected {
                    match &self.feed_cache[self.feed_index].channel.item {
                        Some(items) => {
                            if index < items.len() {
                                match &items[index].link {
                                    Some(link) => {
                                        cmd = Command::OpenLink(link.clone());
                                    },
                                    None => {
                                        self.message = String::from_str("Could not open the link!");
                                    },
                                }
                            }
                        },
                        None => {},
                    }
                }
            },
            Key::Char('r') => {
                self.message = String::from_str("Refreshed!");
                cmd = Command::Refetch { save_first: false };
            },
            _ => {},
        }
        assert(main_step(s, key, tn, dn).0 =~= self@);
        assert(main_step(s, key, tn, dn) == (self@, cmd@));
        cmd
    }

    /// Whether handling the key would panic (see `key_panics`); the program
    /// running the interface tests this first and panics as the interface does.
    pub fn would_panic(&self, key: Key) -> (r: bool)
        ensures
            r == key_panics(self@, key),
    {
        if self.new_channel_popup {
            false
        } else if self.channel_list_popup {
            match key {
                Key::Enter => match self.channels_selected {
                    None => true,
                    Some(i) => i >= self.feed_cache.len() || i >= self.config.feeds.len(),
                },
                Key::Delete => match self.channels_selected {
                    None => true,
                    Some(i) => i >= self.config.feeds.len(),
                },
                _ => false,
            }
        } else {
            let n = self.config.feeds.len();
            match key {
                Key::Right => self.feed_cache.len() > 0 && (n == 0 || self.feed_index == usize::MAX
                    || (self.feed_index + 1) % n >= self.feed_cache.len()),
                Key::Left => self.feed_cache.len() > 0 && (n == 0 || self.feed_index > usize::MAX
                    - n || (self.feed_index + n - 1) % n >= self.feed_cache.len()),
                Key::Char('t') => self.feed_index >= self.feed_cache.len(),
                Key::Char('o') => self.items_selected.is_some() && self.feed_index
                    >= self.feed_cache.len(),
                _ => false,
            }
        }
    }

    /// Handles a key press: the new-feed form takes it when shown, else the
    /// feed list when shown, else the item screen (see `key_step`). Returns
    /// the outside work the key asks for.
    pub fn handle_key(&mut self, key: Key) -> (r: Command)
        requires
            !key_panics(old(self)@, key),
        ensures
            exists|tn: (i64, u32), dn: (i64, u32)|
                #[trigger] key_step(old(self)@, key, tn, dn) == (final(self)@, r@),
    {
        let ghost s = self@;
        if self.new_channel_popup {
            let r = self.form_key(key);
            assert(key_step(s, key, (0, 0), (0, 0)) == (self@, r@));
            r
        } else if self.channel_list_popup {
            let r = self.feed_list_key(key);
            proof {
                let (a, b) = choose|a: (i64, u32), b: (i64, u32)|
                    #[trigger] feed_list_step(s, key, a, b) == (self@, r@);
                assert(key_step(s, key, a, b) == (self@, r@));
            }
            r
        } else {
            let r = self.main_key(key);
            proof {
                let (a, b) = choose|a: (i64, u32), b: (i64, u32)|
                    #[trigger] main_step(s, key, a, b) == (self@, r@);
                assert(key_step(s, key, a, b) == (self@, r@));
            }
            r
        }
    }
}

} // verus!

//! The list of subscribed feeds that the reader keeps between runs.

use vstd::prelude::*;

verus! {

/// A subscribed feed: where it is fetched from and the name it is listed under.
pub struct ConfigFeed {
    pub link: String,
    pub title: String,
}

/// A subscribed feed as text.
pub struct ConfigFeedView {
    pub link: Seq<char>,
    pub title: Seq<char>,
}

impl View for ConfigFeed {
    type V = ConfigFeedView;

    open spec fn view(&self) -> ConfigFeedView {
        ConfigFeedView { link: self.link@, title: self.title@ }
    }
}

impl Default for ConfigFeed {
    fn default() -> (r: Self)
        ensures
            r@.link.len() == 0,
            r@.title.len() == 0,
    {
        ConfigFeed { link: String::new(), title: String::new() }
    }
}

/// The reader's configuration: its subscribed feeds, in the order they were added.
pub struct Config {
    pub feeds: Vec<ConfigFeed>,
}

/// The subscribed feeds of a list, as text.
pub open spec fn feeds_view(feeds: Seq<ConfigFeed>) -> Seq<ConfigFeedView> {
    feeds.map_values(|f: ConfigFeed| f@)
}

impl View for Config {
    type V = Seq<ConfigFeedView>;

    open spec fn view(&self) -> Seq<ConfigFeedView> {
        feeds_view(self.feeds@)
    }
}

impl Default for Config {
    fn default() -> (r: Self)
        ensures
            r@.len() == 0,
    {
        Config { feeds: Vec::new() }
    }
}

impl Config {
    /// The configuration to run with, given the one read from disk if it
    /// could be read and parsed: that one, else the empty configuration.
    pub fn from_loaded(loaded: Option<Config>) -> (r: Config)
        ensures
            loaded is None ==> r@.len() == 0,
            loaded matches Some(c) ==> r == c,
    {
        match loaded {
            Some(c) => c,
            None => Config::default(),
        }
    }

    /// The names of the subscribed feeds, in order, as the feed list shows them.
    pub fn feed_titles(&self) -> (r: Vec<String>)
        ensures
            r.deep_view().len() == self@.len(),
            forall|i: int| 0 <= i < self@.len() ==> #[trigger] r.deep_view()[i] == self@[i].title,
    {
        let mut res: Vec<String> = Vec::new();
        let n = self.feeds.len();
        for i in 0..n
            invariant
                n == self.feeds.len(),
                res.len() == i,
                forall|j: int| 0 <= j < i ==> #[trigger] res@[j]@ == self.feeds@[j].title@,
        {
            res.push(self.feeds[i].title.clone());
        }
        res
    }
}

} // verus!

//! The pages of the application and their paths.
use crate::text::concat;
use vstd::prelude::*;

verus! {

/// A page.
#[derive(Debug, PartialEq, Eq)]
pub enum MainRoute {
    Home,
    Search,
    MyGames,
    NewGame,
    GameDetail { id: String },
    Settings,
}

impl Clone for MainRoute {
    fn clone(&self) -> (res: Self)
        ensures
            res == *self,
    {
        match self {
            MainRoute::Home => MainRoute::Home,
            MainRoute::Search => MainRoute::Search,
            MainRoute::MyGames => MainRoute::MyGames,
            MainRoute::NewGame => MainRoute::NewGame,
            MainRoute::GameDetail { id } => MainRoute::GameDetail { id: id.clone() },
            MainRoute::Settings => MainRoute::Settings,
        }
    }
}

/// The entries of the navigation bar.
#[derive(Clone, Copy, Debug, PartialEq, Eq, Structural)]
pub enum NavEntry {
    Home,
    NewGame,
    MyGames,
    Search,
    Settings,
}

impl MainRoute {
    /// The path of the page.
    pub open spec fn path(self) -> Seq<char> {
        match self {
            MainRoute::Home => "/"@,
            MainRoute::Search => "/search"@,
            MainRoute::MyGames => "/games"@,
            MainRoute::NewGame => "/annotate"@,
            MainRoute::GameDetail { id } => "/detail/"@ + id@,
            MainRoute::Settings => "/settings"@,
        }
    }

    /// The path of the page.
    pub fn to_path(&self) -> (res: String)
        ensures
            res@ == self.path(),
    {
        match self {
            MainRoute::Home => "/".to_owned(),
            MainRoute::Search => "/search".to_owned(),
            MainRoute::MyGames => "/games".to_owned(),
            MainRoute::NewGame => "/annotate".to_owned(),
            MainRoute::GameDetail { id } => concat("/detail/", id.as_str()),
            MainRoute::Settings => "/settings".to_owned(),
        }
    }

    /// The id of the game that the route shows: that of a detail page, and
    /// the empty text on every other page and on none.
    pub fn game_id(route: &Option<MainRoute>) -> (id: String)
        ensures
            id@ == match *route {
                Some(MainRoute::GameDetail { id: shown }) => shown@,
                _ => Seq::<char>::empty(),
            },
    {
        match route {
            Some(MainRoute::GameDetail { id }) => id.clone(),
            _ => String::new(),
        }
    }

    /// Whether an entry of the navigation bar is lit: it is on its own
    /// page, and no entry is lit on a detail page or without a route.
    pub fn lights(route: &Option<MainRoute>, entry: NavEntry) -> (res: bool)
        ensures
            res == match (*route, entry) {
                (Some(MainRoute::Home), NavEntry::Home) => true,
                (Some(MainRoute::NewGame), NavEntry::NewGame) => true,
                (Some(MainRoute::MyGames), NavEntry::MyGames) => true,
                (Some(MainRoute::Search), NavEntry::Search) => true,
                (Some(MainRoute::Settings), NavEntry::Settings) => true,
                _ => false,
            },
    {
        match (route, entry) {
            (Some(MainRoute::Home), NavEntry::Home) => true,
            (Some(MainRoute::NewGame), NavEntry::NewGame) => true,
            (Some(MainRoute::MyGames), NavEntry::MyGames) => true,
            (Some(MainRoute::Search), NavEntry::Search) => true,
            (Some(MainRoute::Settings), NavEntry::Settings) => true,
            _ => false,
        }
    }
}

} // verus!

//! Which relays a session talks to, and the rule for adding one by hand.
use crate::sync::{distinct_urls, ReadyState, RelayHealth};
use crate::text::{concat, starts_with, trim, trimmed};
use vstd::prelude::*;

verus! {

/// A relay the user has configured.
#[derive(Debug, PartialEq, Eq)]
pub struct UserRelay {
    pub url: String,
    pub read: bool,
    pub write: bool,
}

/// The mathematical value of a [`UserRelay`].
pub struct UserRelayView {
    pub url: Seq<char>,
    pub read: bool,
    pub write: bool,
}

impl View for UserRelay {
    type V = UserRelayView;

    open spec fn view(&self) -> UserRelayView {
        UserRelayView { url: self.url@, read: self.read, write: self.write }
    }
}

impl DeepView for UserRelay {
    type V = UserRelayView;

    open spec fn deep_view(&self) -> UserRelayView {
        self@
    }
}

impl Clone for UserRelay {
    fn clone(&self) -> (res: Self)
        ensures
            res@ == self@,
    {
        UserRelay { url: self.url.clone(), read: self.read, write: self.write }
    }
}

/// A relay that is both read from and written to.
pub open spec fn two_way(url: Seq<char>) -> UserRelayView {
    UserRelayView { url, read: true, write: true }
}

/// The relays of a session that has none of its own.
pub open spec fn default_relays_view() -> Seq<UserRelayView> {
    seq![
        two_way("wss://purplepag.es"@),
        two_way("wss://relay.unkownk.com"@),
        two_way("wss://nos.lol"@),
        two_way("wss://relay.illuminodes.com"@),
    ]
}

impl UserRelay {
    /// A relay that is both read from and written to.
    pub fn two_way(url: &str) -> (relay: Self)
        ensures
            relay@ == two_way(url@),
    {
        UserRelay { url: url.to_owned(), read: true, write: true }
    }
}

/// The relays of a session that has none of its own.
pub fn default_relays() -> (relays: Vec<UserRelay>)
    ensures
        relays.deep_view() == default_relays_view(),
{
    let mut relays: Vec<UserRelay> = Vec::new();
    relays.push(UserRelay::two_way("wss://purplepag.es"));
    relays.push(UserRelay::two_way("wss://relay.unkownk.com"));
    relays.push(UserRelay::two_way("wss://nos.lol"));
    relays.push(UserRelay::two_way("wss://relay.illuminodes.com"));
    assert(relays.deep_view() =~= default_relays_view());
    relays
}

/// The relays to connect to: the stored ones, or the defaults where the
/// store could not be read (`None`) or holds none.
pub fn relays_to_use(saved: Option<Vec<UserRelay>>) -> (relays: Vec<UserRelay>)
    ensures
        relays.deep_view() == match saved {
            Some(stored) => if stored.len() > 0 {
                stored.deep_view()
            } else {
                default_relays_view()
            },
            None => default_relays_view(),
        },
{
    match saved {
        Some(stored) => {
            if stored.len() == 0 {
                default_relays()
            } else {
                stored
            }
        },
        None => default_relays(),
    }
}

/// What became of a request to add a relay.
#[derive(Debug, PartialEq, Eq)]
pub enum AddRelay {
    /// The input was blank: nothing happens.
    Ignored,
    /// A relay with this URL is configured already.
    AlreadyExists,
    /// The relay to add.
    Added(UserRelay),
}

/// The URL that an input stands for: the input itself where it begins with
/// `wss://`, else its trimmed text behind `wss://`; trimmed in either case.
pub open spec fn relay_url_of(input: Seq<char>) -> Seq<char> {
    if "wss://"@.is_prefix_of(input) {
        trimmed(input)
    } else {
        trimmed("wss://"@ + trimmed(input))
    }
}

/// Whether a relay with this URL is configured.
pub open spec fn is_configured(health: RelayHealth, url: Seq<char>) -> bool {
    exists|i: int| 0 <= i < health.pairs().len() && (#[trigger] health.pairs()[i]).0 == url
}

/// The rule for adding a relay by hand: a blank input is ignored, a URL
/// that is configured already is refused, any other is added as a two-way
/// relay.
pub fn add_relay(health: &RelayHealth, input: &str) -> (res: AddRelay)
    ensures
        trimmed(input@).len() == 0 ==> res == AddRelay::Ignored,
        trimmed(input@).len() > 0 && is_configured(*health, relay_url_of(input@)) ==> res
            == AddRelay::AlreadyExists,
        trimmed(input@).len() > 0 && !is_configured(*health, relay_url_of(input@)) ==> (res matches AddRelay::Added(
            relay,
        ) && relay@ == two_way(relay_url_of(input@))),
{
    let bare = trim(input);
    if bare.is_empty() {
        return AddRelay::Ignored;
    }
    let candidate = if starts_with(input, "wss://") {
        input.to_owned()
    } else {
        concat("wss://", bare)
    };
    let url = trim(candidate.as_str());
    if health.contains_key(url) {
        return AddRelay::AlreadyExists;
    }
    AddRelay::Added(UserRelay::two_way(url))
}

/// A relay that the rule adds was not configured before: with it, in
/// whatever state, no URL stands twice.
pub proof fn lemma_added_relay_is_new(health: RelayHealth, input: Seq<char>, state: ReadyState)
    requires
        health.well_formed(),
        !is_configured(health, relay_url_of(input)),
    ensures
        distinct_urls(health.pairs().push((relay_url_of(input), state))),
{
    let url = relay_url_of(input);
    let next = health.pairs().push((url, state));
    assert forall|i: int, j: int| 0 <= i < j < next.len() implies next[i].0 != next[j].0 by {
        if j == health.pairs().len() {
            assert(health.pairs()[i].0 != url);
        }
    }
}

/// Whether the add button is switched off: it is for a blank input.
pub fn add_is_disabled(input: &str) -> (res: bool)
    ensures
        res == (trimmed(input@).len() == 0),
{
    trim(input).is_empty()
}

/// The relay to take out of the pool for a URL.
pub fn relay_to_remove(url: &str) -> (relay: UserRelay)
    ensures
        relay@ == two_way(url@),
{
    UserRelay::two_way(url)
}

/// How a relay's state is shown: a colour class, the key of its label and
/// an icon.
#[derive(Clone, Copy, Debug, PartialEq, Eq)]
pub struct RelayBadge {
    pub color: &'static str,
    pub label_key: &'static str,
    pub icon: &'static str,
}

/// The badge of a connection state.
pub fn relay_badge(state: ReadyState) -> (badge: RelayBadge)
    ensures
        match state {
            ReadyState::Connecting => badge.color@ == "text-yellow-500"@ && badge.label_key@
                == "relay_status_connecting"@ && badge.icon@ == "\u{23f3}"@,
            ReadyState::Open => badge.color@ == "text-green-500"@ && badge.label_key@
                == "relay_status_connected"@ && badge.icon@ == "\u{2705}"@,
            ReadyState::Closing => badge.color@ == "text-orange-500"@ && badge.label_key@
                == "relay_status_closing"@ && badge.icon@ == "\u{23f3}"@,
            ReadyState::Closed => badge.color@ == "text-red-500"@ && badge.label_key@
                == "relay_status_closed"@ && badge.icon@ == "\u{274c}"@,
        },
{
    match state {
        ReadyState::Connecting => RelayBadge {
            color: "text-yellow-500",
            label_key: "relay_status_connecting",
            icon: "\u{23f3}",
        },
        ReadyState::Open => RelayBadge {
            color: "text-green-500",
            label_key: "relay_status_connected",
            icon: "\u{2705}",
        },
        ReadyState::Closing => RelayBadge {
            color: "text-orange-500",
            label_key: "relay_status_closing",
            icon: "\u{23f3}",
        },
        ReadyState::Closed => RelayBadge {
            color: "text-red-500",
            label_key: "relay_status_closed",
            icon: "\u{274c}",
        },
    }
}

} // verus!

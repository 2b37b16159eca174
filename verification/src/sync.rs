//! The sync coordinator: which subscription to open, which subscription is
//! being waited for, and when the history counts as caught up.
use crate::live_game::{AnnotatedGameHistoryAction, HistoryView};
use crate::note::Note;
use crate::text::same_text;
use vstd::prelude::*;

verus! {

/// The kind of a gift-wrapped direct message.
pub const GIFT_WRAP_KIND: u32 = 1059;

/// The kind of a profile note.
pub const METADATA_KIND: u32 = 0;

/// A filter sent to the relays.
#[derive(Debug, PartialEq, Eq)]
pub struct Subscription {
    pub authors: Option<Vec<String>>,
    pub kinds: Option<Vec<u32>>,
    /// Lower bound on a note's creation time, in seconds since the epoch.
    pub since: Option<u64>,
    /// Tag filters: the tag's name with its `#`, and the values asked for.
    pub tags: Vec<(String, Vec<String>)>,
}

/// The mathematical value of a [`Subscription`].
#[verifier::ext_equal]
pub struct SubscriptionView {
    pub authors: Option<Seq<Seq<char>>>,
    pub kinds: Option<Seq<u32>>,
    pub since: Option<u64>,
    pub tags: Seq<(Seq<char>, Seq<Seq<char>>)>,
}

impl View for Subscription {
    type V = SubscriptionView;

    open spec fn view(&self) -> SubscriptionView {
        SubscriptionView {
            authors: self.authors.deep_view(),
            kinds: self.kinds.deep_view(),
            since: self.since,
            tags: self.tags.deep_view(),
        }
    }
}

impl DeepView for Subscription {
    type V = SubscriptionView;

    open spec fn deep_view(&self) -> SubscriptionView {
        self@
    }
}

/// The filter for the gift wraps addressed to `pubkey` since the last sync,
/// which is given in milliseconds and asked for in whole seconds.
pub open spec fn inbox_filter_of(pubkey: Seq<char>, last_sync_millis: u64) -> SubscriptionView {
    SubscriptionView {
        authors: None,
        kinds: Some(seq![GIFT_WRAP_KIND]),
        since: Some((last_sync_millis / 1000) as u64),
        tags: seq![("#p"@, seq![pubkey])],
    }
}

/// The filter for the profile notes that `pubkey` wrote.
pub open spec fn metadata_filter_of(pubkey: Seq<char>) -> SubscriptionView {
    SubscriptionView {
        authors: Some(seq![pubkey]),
        kinds: Some(seq![METADATA_KIND]),
        since: None,
        tags: Seq::empty(),
    }
}

/// Builds the inbox filter.
pub fn inbox_filter(pubkey: &str, last_sync_millis: u64) -> (filter: Subscription)
    ensures
        filter@ == inbox_filter_of(pubkey@, last_sync_millis),
{
    let mut kinds: Vec<u32> = Vec::new();
    kinds.push(GIFT_WRAP_KIND);
    let mut values: Vec<String> = Vec::new();
    values.push(pubkey.to_owned());
    let mut tags: Vec<(String, Vec<String>)> = Vec::new();
    tags.push(("#p".to_owned(), values));
    let filter = Subscription {
        authors: None,
        kinds: Some(kinds),
        since: Some(last_sync_millis / 1000),
        tags,
    };
    assert(filter@.kinds.unwrap() =~= seq![GIFT_WRAP_KIND]);
    assert(filter@.tags[0].1 =~= seq![pubkey@]);
    assert(filter@.tags =~= seq![("#p"@, seq![pubkey@])]);
    filter
}

/// Builds the profile filter.
pub fn metadata_filter(pubkey: &str) -> (filter: Subscription)
    ensures
        filter@ == metadata_filter_of(pubkey@),
{
    let mut kinds: Vec<u32> = Vec::new();
    kinds.push(METADATA_KIND);
    let mut authors: Vec<String> = Vec::new();
    authors.push(pubkey.to_owned());
    let filter = Subscription {
        authors: Some(authors),
        kinds: Some(kinds),
        since: None,
        tags: Vec::new(),
    };
    assert(filter@.kinds.unwrap() =~= seq![METADATA_KIND]);
    assert(filter@.authors.unwrap() =~= seq![pubkey@]);
    assert(filter@.tags =~= Seq::empty());
    filter
}

/// What a client hands to the relays.
#[derive(Debug, PartialEq, Eq)]
pub enum ClientEvent {
    SendNote(Note),
    /// A subscription request under the id that the transport gave it.
    Subscribe(String, Subscription),
    CloseSubscription(String),
    Auth(Note),
    Pong,
}

/// What the relays hand to a client.
#[derive(Debug, PartialEq, Eq)]
pub enum RelayEvent {
    /// A note delivered under a subscription id.
    NewNote(String, Note),
    /// The relay's answer to a sent note: its id, the verdict and a message.
    SentOk(String, bool, String),
    /// The relay has delivered every stored note of a subscription.
    EndOfSubscription { relay: String, subscription_id: String },
    ClosedSubscription(String),
    Notice(String),
    Ping,
    Close(String),
    Auth(String),
}

/// The state of a relay's connection.
#[derive(Clone, Copy, Debug, PartialEq, Eq, Structural)]
pub enum ReadyState {
    Connecting,
    Open,
    Closing,
    Closed,
}

impl DeepView for ReadyState {
    type V = ReadyState;

    open spec fn deep_view(&self) -> ReadyState {
        *self
    }
}

/// Whether no URL stands twice.
pub open spec fn distinct_urls(pairs: Seq<(Seq<char>, ReadyState)>) -> bool {
    forall|i: int, j: int| 0 <= i < j < pairs.len() ==> pairs[i].0 != pairs[j].0
}

/// The connection state of each configured relay, by its URL.
#[derive(Debug, PartialEq, Eq)]
pub struct RelayHealth {
    pub relays: Vec<(String, ReadyState)>,
}

impl RelayHealth {
    /// The URLs and states as a map's pairs.
    pub open spec fn pairs(&self) -> Seq<(Seq<char>, ReadyState)> {
        self.relays.deep_view()
    }

    /// No URL stands twice.
    pub open spec fn well_formed(&self) -> bool {
        distinct_urls(self.pairs())
    }

    /// Whether no relay is configured.
    pub fn is_empty(&self) -> (res: bool)
        ensures
            res == (self.pairs().len() == 0),
    {
        self.relays.len() == 0
    }

    /// Whether a relay with this URL is configured.
    pub fn contains_key(&self, url: &str) -> (res: bool)
        ensures
            res == exists|i: int|
                0 <= i < self.pairs().len() && (#[trigger] self.pairs()[i]).0 == url@,
    {
        let mut i: usize = 0;
        while i < self.relays.len()
            invariant
                i <= self.relays.len(),
                forall|k: int| 0 <= k < i ==> (#[trigger] self.pairs()[k]).0 != url@,
            decreases self.relays.len() - i,
        {
            if same_text(self.relays[i].0.as_str(), url) {
                assert(self.pairs()[i as int].0 == url@);
                return true;
            }
            i += 1;
        }
        false
    }
}

/// The sync cursor: the time of the last completed sync, in milliseconds
/// since the epoch, and the subscription that is being waited for.
#[derive(Debug, PartialEq, Eq)]
pub struct SyncCursor {
    pub last_sync_timestamp: Option<u64>,
    pub active_subscription_id: Option<String>,
}

/// Whether the newest relay event ends the tracked subscription.
pub open spec fn end_of_subscription(active: Option<Seq<char>>, events: Seq<RelayEvent>) -> bool {
    &&& events.len() > 0
    &&& events.last() matches RelayEvent::EndOfSubscription { subscription_id, .. }
    &&& active == Some(subscription_id@)
}

/// What the relay events mean for the history: `Synced` where the newest
/// event ends the tracked subscription, nothing otherwise.
pub open spec fn events_action(active: Option<Seq<char>>, events: Seq<RelayEvent>) -> Option<
    AnnotatedGameHistoryAction,
> {
    if end_of_subscription(active, events) {
        Some(AnnotatedGameHistoryAction::Synced)
    } else {
        None
    }
}

/// What the relays' health means for the history: `Synced` where no relay
/// is configured, nothing otherwise.
pub open spec fn health_action(pairs: Seq<(Seq<char>, ReadyState)>) -> Option<
    AnnotatedGameHistoryAction,
> {
    if pairs.len() == 0 {
        Some(AnnotatedGameHistoryAction::Synced)
    } else {
        None
    }
}

impl SyncCursor {
    /// The cursor at the start of a session: no subscription is open.
    pub fn new(last_sync_timestamp: Option<u64>) -> (cursor: Self)
        ensures
            cursor.last_sync_timestamp == last_sync_timestamp,
            cursor.active_subscription_id is None,
    {
        SyncCursor { last_sync_timestamp, active_subscription_id: None }
    }

    /// The subscribe trigger: the inbox filter where both the local public
    /// key and the last sync time are known, nothing otherwise.
    pub fn subscription(&self, pubkey: &Option<String>) -> (filter: Option<Subscription>)
        ensures
            filter.deep_view() == match (*pubkey, self.last_sync_timestamp) {
                (Some(key), Some(millis)) => Some(inbox_filter_of(key@, millis)),
                _ => None,
            },
    {
        match (pubkey, self.last_sync_timestamp) {
            (Some(key), Some(millis)) => Some(inbox_filter(key.as_str(), millis)),
            _ => None,
        }
    }

    /// Takes note of the local public key and the last sync time as they
    /// are now, and says which subscription to open for them: the shell
    /// calls this at the start and whenever one of the two has changed.
    pub fn on_identity(&mut self, pubkey: &Option<String>, last_sync_timestamp: Option<u64>) -> (filter:
        Option<Subscription>)
        ensures
            final(self).last_sync_timestamp == last_sync_timestamp,
            final(self).active_subscription_id == old(self).active_subscription_id,
            filter.deep_view() == match (*pubkey, last_sync_timestamp) {
                (Some(key), Some(millis)) => Some(inbox_filter_of(key@, millis)),
                _ => None,
            },
    {
        self.last_sync_timestamp = last_sync_timestamp;
        self.subscription(pubkey)
    }

    /// Records the id under which the transport sent a subscription. Any
    /// other event leaves the cursor as it is.
    pub fn track(&mut self, sent: &ClientEvent)
        ensures
            final(self).last_sync_timestamp == old(self).last_sync_timestamp,
            final(self).active_subscription_id.deep_view() == match *sent {
                ClientEvent::Subscribe(id, _) => Some(id@),
                _ => old(self).active_subscription_id.deep_view(),
            },
    {
        match sent {
            ClientEvent::Subscribe(id, _) => {
                self.active_subscription_id = Some(id.clone());
            },
            _ => {},
        }
    }

    /// The end-of-subscription rule: `Synced` where the newest relay event
    /// ends the subscription that is tracked now, nothing otherwise. Only
    /// the newest event is looked at.
    pub fn on_relay_events(&self, events: &Vec<RelayEvent>) -> (action: Option<
        AnnotatedGameHistoryAction,
    >)
        ensures
            action == events_action(self.active_subscription_id.deep_view(), events@),
    {
        if events.len() == 0 {
            return None;
        }
        match &events[events.len() - 1] {
            RelayEvent::EndOfSubscription { subscription_id, .. } => {
                match &self.active_subscription_id {
                    Some(active) => {
                        if *active == *subscription_id {
                            Some(AnnotatedGameHistoryAction::Synced)
                        } else {
                            None
                        }
                    },
                    None => None,
                }
            },
            _ => None,
        }
    }
}

/// The immediate-synced rule: with no relay configured there is nothing to
/// wait for, so the history is `Synced` at once; no subscription is needed
/// for that, tracked or not.
pub fn on_relay_health(health: &RelayHealth) -> (action: Option<AnnotatedGameHistoryAction>)
    ensures
        action == health_action(health.pairs()),
{
    if health.is_empty() {
        Some(AnnotatedGameHistoryAction::Synced)
    } else {
        None
    }
}

/// With no relay configured the history is synced by the health rule alone,
/// whatever the cursor holds: the rule never looks at a subscription.
pub proof fn lemma_no_relay_syncs_at_once(state: HistoryView, health: RelayHealth)
    requires
        health.pairs().len() == 0,
    ensures
        health_action(health.pairs()) == Some(AnnotatedGameHistoryAction::Synced),
        state.reduce(health_action(health.pairs()).unwrap()@).synced,
{
}

/// Of all end-of-subscription events only the one that carries the tracked
/// id syncs the history: another id, or no tracked id at all, does nothing,
/// and neither does any other kind of event.
pub proof fn lemma_only_the_tracked_subscription_syncs(
    active: Option<Seq<char>>,
    events: Seq<RelayEvent>,
)
    ensures
        events_action(active, events) is Some <==> events.len() > 0 && (events.last() matches
        RelayEvent::EndOfSubscription { subscription_id, .. } && active == Some(
            subscription_id@,
        )),
        events_action(active, events) is Some ==> events_action(active, events) == Some(
            AnnotatedGameHistoryAction::Synced,
        ),
        active is None ==> events_action(active, events) is None,
{
}

} // verus!

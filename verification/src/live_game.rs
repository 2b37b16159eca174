//! The in-memory game history and the reducer that is its only writer.
use crate::note::{clone_entries, GameEntry, GameEntryView};
use vstd::prelude::*;

verus! {

/// The archive as one session sees it: every known entry in arrival order,
/// the entries received during this session, and whether the relays have
/// been drained.
#[derive(Debug, PartialEq, Eq)]
pub struct AnnotatedGameHistory {
    pub synced: bool,
    pub games: GameLists,
}

/// The two lists of a history. Their contents can be read by anyone and are
/// written by the reducer alone.
#[derive(Debug, PartialEq, Eq)]
pub struct GameLists {
    pgn_games: Vec<GameEntry>,
    unread: Vec<GameEntry>,
}

impl GameLists {
    /// Every entry, in arrival order.
    pub closed spec fn entries(&self) -> Seq<GameEntryView> {
        self.pgn_games.deep_view()
    }

    /// The entries received in this session, in arrival order.
    pub closed spec fn unread(&self) -> Seq<GameEntryView> {
        self.unread.deep_view()
    }
}

/// The mathematical value of an [`AnnotatedGameHistory`].
#[verifier::ext_equal]
pub struct HistoryView {
    pub synced: bool,
    pub entries: Seq<GameEntryView>,
    pub unread: Seq<GameEntryView>,
}

/// What can happen to the history.
#[derive(Debug, PartialEq, Eq)]
pub enum AnnotatedGameHistoryAction {
    /// The relays have nothing more to deliver.
    Synced,
    /// The locally stored entries, read once at start.
    LoadGames(Vec<GameEntry>),
    /// A game authored or imported on this device.
    AddGame(GameEntry),
    /// A game that arrived over the relays.
    AddReceivedGame(GameEntry),
}

/// The mathematical value of an [`AnnotatedGameHistoryAction`].
#[verifier::ext_equal]
pub enum ActionView {
    Synced,
    LoadGames(Seq<GameEntryView>),
    AddGame(GameEntryView),
    AddReceivedGame(GameEntryView),
}

impl View for AnnotatedGameHistoryAction {
    type V = ActionView;

    open spec fn view(&self) -> ActionView {
        match self {
            AnnotatedGameHistoryAction::Synced => ActionView::Synced,
            AnnotatedGameHistoryAction::LoadGames(games) => ActionView::LoadGames(
                games.deep_view(),
            ),
            AnnotatedGameHistoryAction::AddGame(game) => ActionView::AddGame(game@),
            AnnotatedGameHistoryAction::AddReceivedGame(game) => ActionView::AddReceivedGame(
                game@,
            ),
        }
    }
}

impl Clone for AnnotatedGameHistoryAction {
    fn clone(&self) -> (res: Self)
        ensures
            res@ == self@,
    {
        match self {
            AnnotatedGameHistoryAction::Synced => AnnotatedGameHistoryAction::Synced,
            AnnotatedGameHistoryAction::LoadGames(games) => AnnotatedGameHistoryAction::LoadGames(
                clone_entries(games),
            ),
            AnnotatedGameHistoryAction::AddGame(game) => AnnotatedGameHistoryAction::AddGame(
                game.clone(),
            ),
            AnnotatedGameHistoryAction::AddReceivedGame(game) => {
                AnnotatedGameHistoryAction::AddReceivedGame(game.clone())
            },
        }
    }
}

impl HistoryView {
    /// The history at the start of a session: the stored entries, nothing
    /// unread, not yet synced.
    pub open spec fn initial(loaded: Seq<GameEntryView>) -> HistoryView {
        HistoryView { synced: false, entries: loaded, unread: Seq::empty() }
    }

    /// The history after one action.
    pub open spec fn reduce(self, action: ActionView) -> HistoryView {
        match action {
            ActionView::Synced => HistoryView { synced: true, ..self },
            ActionView::LoadGames(games) => HistoryView { entries: games, ..self },
            ActionView::AddGame(game) => HistoryView { entries: self.entries.push(game), ..self },
            ActionView::AddReceivedGame(game) => HistoryView {
                entries: self.entries.push(game),
                unread: self.unread.push(game),
                ..self
            },
        }
    }

    /// The history after a run of actions, applied first to last.
    pub open spec fn reduce_all(self, actions: Seq<ActionView>) -> HistoryView
        decreases actions.len(),
    {
        if actions.len() == 0 {
            self
        } else {
            self.reduce_all(actions.drop_last()).reduce(actions.last())
        }
    }

    /// Every unread entry is also one of the entries.
    pub open spec fn well_formed(self) -> bool {
        forall|i: int| 0 <= i < self.unread.len() ==> self.entries.contains(#[trigger] self.unread[i])
    }
}

impl ActionView {
    /// Whether the action appends one entry.
    pub open spec fn is_addition(self) -> bool {
        self is AddGame || self is AddReceivedGame
    }

    /// Whether a history that holds `unread` keeps every unread entry among
    /// its entries under this action.
    pub open spec fn keeps(self, unread: Seq<GameEntryView>) -> bool {
        self matches ActionView::LoadGames(games) ==> forall|i: int|
            0 <= i < unread.len() ==> games.contains(#[trigger] unread[i])
    }
}

/// The entry that an addition carries.
pub open spec fn carried(action: ActionView) -> GameEntryView {
    match action {
        ActionView::AddGame(game) => game,
        ActionView::AddReceivedGame(game) => game,
        _ => arbitrary(),
    }
}

/// The entries that a run of actions appends, in the order applied.
pub open spec fn added_by(actions: Seq<ActionView>) -> Seq<GameEntryView> {
    actions.filter(|a: ActionView| a.is_addition()).map_values(|a: ActionView| carried(a))
}

/// The entries that a run of actions marks unread, in the order applied.
pub open spec fn received_by(actions: Seq<ActionView>) -> Seq<GameEntryView> {
    actions.filter(|a: ActionView| a is AddReceivedGame).map_values(|a: ActionView| carried(a))
}

/// Whether `i` is the place of the first entry whose note has the id `id`.
pub open spec fn is_first_with_id(entries: Seq<GameEntryView>, id: Seq<char>, i: int) -> bool {
    &&& 0 <= i < entries.len()
    &&& entries[i].note.id == Some(id)
    &&& forall|k: int| 0 <= k < i ==> entries[k].note.id != Some(id)
}

/// What a lookup by note id finds: nothing while the history is not synced,
/// else the first entry whose note has that id.
pub open spec fn found_in(state: HistoryView, id: Seq<char>) -> Option<GameEntryView> {
    if state.synced && exists|i: int| is_first_with_id(state.entries, id, i) {
        Some(state.entries[choose|i: int| is_first_with_id(state.entries, id, i)])
    } else {
        None
    }
}

impl View for AnnotatedGameHistory {
    type V = HistoryView;

    open spec fn view(&self) -> HistoryView {
        HistoryView {
            synced: self.synced,
            entries: self.games.entries(),
            unread: self.games.unread(),
        }
    }
}

impl Clone for AnnotatedGameHistory {
    fn clone(&self) -> (res: Self)
        ensures
            res@ == self@,
    {
        AnnotatedGameHistory {
            synced: self.synced,
            games: GameLists {
                pgn_games: clone_entries(&self.games.pgn_games),
                unread: clone_entries(&self.games.unread),
            },
        }
    }
}

impl Default for AnnotatedGameHistory {
    fn default() -> (res: Self)
        ensures
            res@ == HistoryView::initial(Seq::empty()),
    {
        let res = AnnotatedGameHistory {
            synced: false,
            games: GameLists { pgn_games: Vec::new(), unread: Vec::new() },
        };
        assert(res@.entries =~= Seq::empty());
        assert(res@.unread =~= Seq::empty());
        res
    }
}

impl AnnotatedGameHistory {
    /// The history a session starts with.
    pub fn new(loaded: Vec<GameEntry>) -> (res: Self)
        ensures
            res@ == HistoryView::initial(loaded.deep_view()),
            res@.well_formed(),
    {
        let res = AnnotatedGameHistory {
            synced: false,
            games: GameLists { pgn_games: loaded, unread: Vec::new() },
        };
        assert(res@.unread =~= Seq::empty());
        res
    }

    /// The history a session starts with, given what the archive handed
    /// out: an archive that could not be read (`None`) counts as empty.
    pub fn from_archive(stored: Option<Vec<GameEntry>>) -> (res: Self)
        ensures
            res@ == HistoryView::initial(
                match stored {
                    Some(entries) => entries.deep_view(),
                    None => Seq::empty(),
                },
            ),
            res@.well_formed(),
    {
        match stored {
            Some(entries) => AnnotatedGameHistory::new(entries),
            None => {
                let entries: Vec<GameEntry> = Vec::new();
                assert(entries.deep_view() =~= Seq::empty());
                AnnotatedGameHistory::new(entries)
            },
        }
    }

    /// The public flag is the flag of the history's value: reading it is
    /// reading `synced` of the view.
    pub proof fn lemma_synced_is_viewed(&self)
        ensures
            self@.synced == self.synced,
    {
    }

    /// Whether the relays have been drained.
    #[must_use]
    pub fn is_synced(&self) -> (res: bool)
        ensures
            res == self@.synced,
    {
        self.synced
    }

    /// Every entry, in arrival order.
    #[must_use]
    pub fn rooky_game_entries(&self) -> (res: Vec<GameEntry>)
        ensures
            res.deep_view() == self@.entries,
    {
        clone_entries(&self.games.pgn_games)
    }

    /// The entries received in this session, in arrival order.
    #[must_use]
    pub fn unread_games(&self) -> (res: Vec<GameEntry>)
        ensures
            res.deep_view() == self@.unread,
    {
        clone_entries(&self.games.unread)
    }

    /// Whether any entry was received in this session.
    #[must_use]
    pub fn has_unread(&self) -> (res: bool)
        ensures
            res == (self@.unread.len() > 0),
    {
        !self.games.unread.is_empty()
    }

    /// The first entry whose note has the id `id`, once the history is
    /// synced; nothing before that.
    pub fn find_game(&self, id: &str) -> (res: Option<GameEntry>)
        ensures
            res.deep_view() == found_in(self@, id@),
    {
        if !self.synced {
            return None;
        }
        let mut i: usize = 0;
        while i < self.games.pgn_games.len()
            invariant
                i <= self.games.pgn_games.len(),
                self@.synced,
                forall|k: int| 0 <= k < i ==> self@.entries[k].note.id != Some(id@),
            decreases self.games.pgn_games.len() - i,
        {
            if self.games.pgn_games[i].has_note_id(id) {
                proof {
                    assert(is_first_with_id(self@.entries, id@, i as int));
                    let first = choose|j: int| is_first_with_id(self@.entries, id@, j);
                    assert(first == i);
                }
                return Some(self.games.pgn_games[i].clone());
            }
            i += 1;
        }
        None
    }

    /// The history after `action`. No action removes or changes an entry
    /// that is already there, and `synced` never goes back to false.
    pub fn reduce(&self, action: AnnotatedGameHistoryAction) -> (next: Self)
        ensures
            next@ == self@.reduce(action@),
            self@.synced ==> next@.synced,
            self@.well_formed() && action@.keeps(self@.unread) ==> next@.well_formed(),
    {
        let next = match action {
            AnnotatedGameHistoryAction::Synced => AnnotatedGameHistory {
                synced: true,
                games: GameLists {
                    pgn_games: clone_entries(&self.games.pgn_games),
                    unread: clone_entries(&self.games.unread),
                },
            },
            AnnotatedGameHistoryAction::LoadGames(games) => AnnotatedGameHistory {
                synced: self.synced,
                games: GameLists { pgn_games: games, unread: clone_entries(&self.games.unread) },
            },
            AnnotatedGameHistoryAction::AddReceivedGame(game) => {
                let mut pgn_games = clone_entries(&self.games.pgn_games);
                let mut unread = clone_entries(&self.games.unread);
                unread.push(game.clone());
                pgn_games.push(game);
                assert(pgn_games.deep_view() =~= self.games.pgn_games.deep_view().push(game@));
                assert(unread.deep_view() =~= self.games.unread.deep_view().push(game@));
                AnnotatedGameHistory { synced: self.synced, games: GameLists { pgn_games, unread } }
            },
            AnnotatedGameHistoryAction::AddGame(game) => {
                let mut pgn_games = clone_entries(&self.games.pgn_games);
                pgn_games.push(game);
                assert(pgn_games.deep_view() =~= self.games.pgn_games.deep_view().push(game@));
                AnnotatedGameHistory {
                    synced: self.synced,
                    games: GameLists { pgn_games, unread: clone_entries(&self.games.unread) },
                }
            },
        };
        proof {
            if self@.well_formed() && action@.keeps(self@.unread) {
                lemma_reduce_keeps_well_formed(self@, action@);
            }
        }
        next
    }
}

/// The first state of a session holds what the archive handed out, entry
/// for entry and field for field, with nothing unread and not yet synced.
pub proof fn lemma_first_state_holds_what_was_loaded(loaded: Seq<GameEntryView>)
    ensures
        HistoryView::initial(loaded).entries == loaded,
        HistoryView::initial(loaded).unread == Seq::<GameEntryView>::empty(),
        !HistoryView::initial(loaded).synced,
        HistoryView::initial(loaded).well_formed(),
{
}

/// Applying `Synced` twice leaves the history as applying it once does.
pub proof fn lemma_synced_is_idempotent(state: HistoryView)
    ensures
        state.reduce(ActionView::Synced).reduce(ActionView::Synced) == state.reduce(
            ActionView::Synced,
        ),
        state.reduce(ActionView::Synced).synced,
        state.reduce(ActionView::Synced).entries == state.entries,
        state.reduce(ActionView::Synced).unread == state.unread,
{
}

/// Once `synced` is true, no run of actions makes it false again.
pub proof fn lemma_synced_never_reverts(state: HistoryView, actions: Seq<ActionView>)
    requires
        state.synced,
    ensures
        state.reduce_all(actions).synced,
    decreases actions.len(),
{
    if actions.len() > 0 {
        lemma_synced_never_reverts(state, actions.drop_last());
    }
}

/// After a run of additions the entries are the old ones followed by every
/// added entry, one for each action, and the unread entries are the old ones
/// followed by exactly the received entries, both in the order applied.
pub proof fn lemma_additions_accumulate(state: HistoryView, actions: Seq<ActionView>)
    requires
        forall|i: int| 0 <= i < actions.len() ==> (#[trigger] actions[i]).is_addition(),
    ensures
        state.reduce_all(actions).entries == state.entries + added_by(actions),
        state.reduce_all(actions).entries.len() == state.entries.len() + actions.len(),
        state.reduce_all(actions).unread == state.unread + received_by(actions),
        state.reduce_all(actions).synced == state.synced,
        received_by(actions).len() <= actions.len(),
        state.unread.len() <= state.entries.len() ==> state.reduce_all(actions).unread.len()
            <= state.reduce_all(actions).entries.len(),
    decreases actions.len(),
{
    let is_add = |a: ActionView| a.is_addition();
    let is_recv = |a: ActionView| a is AddReceivedGame;
    let get = |a: ActionView| carried(a);
    if actions.len() == 0 {
        assert(actions.filter(is_add) =~= Seq::empty()) by {
            reveal(Seq::filter);
        }
        assert(actions.filter(is_recv) =~= Seq::empty()) by {
            reveal(Seq::filter);
        }
        assert(state.entries + added_by(actions) =~= state.entries);
        assert(state.unread + received_by(actions) =~= state.unread);
    } else {
        let before = actions.drop_last();
        let last = actions.last();
        lemma_additions_accumulate(state, before);
        assert(actions.filter(is_add) =~= before.filter(is_add).push(last)) by {
            reveal(Seq::filter);
        }
        assert(actions.filter(is_recv) =~= if is_recv(last) {
            before.filter(is_recv).push(last)
        } else {
            before.filter(is_recv)
        }) by {
            reveal(Seq::filter);
        }
        assert(added_by(actions) =~= added_by(before).push(carried(last)));
        assert(received_by(actions) =~= if last is AddReceivedGame {
            received_by(before).push(carried(last))
        } else {
            received_by(before)
        });
        let mid = state.reduce_all(before);
        assert(mid.reduce(last).entries =~= state.entries + added_by(actions));
        assert(mid.reduce(last).unread =~= state.unread + received_by(actions));
    }
}

/// No action but a load removes or changes an entry, and no action at all
/// removes or changes an unread entry: the old lists are prefixes of the new.
pub proof fn lemma_reduce_appends(state: HistoryView, action: ActionView)
    ensures
        !(action is LoadGames) ==> state.entries.is_prefix_of(state.reduce(action).entries),
        state.unread.is_prefix_of(state.reduce(action).unread),
{
}

/// A well-formed history stays well formed under every action that is not a
/// load, and under a load whose games hold every unread entry.
pub proof fn lemma_reduce_keeps_well_formed(state: HistoryView, action: ActionView)
    requires
        state.well_formed(),
        action.keeps(state.unread),
    ensures
        state.reduce(action).well_formed(),
{
    let next = state.reduce(action);
    assert forall|i: int| 0 <= i < next.unread.len() implies next.entries.contains(
        #[trigger] next.unread[i],
    ) by {
        match action {
            ActionView::Synced => {},
            ActionView::LoadGames(games) => {},
            ActionView::AddGame(game) => {
                let k = choose|k: int| 0 <= k < state.entries.len() && state.entries[k] == state.unread[i];
                assert(next.entries[k] == next.unread[i]);
            },
            ActionView::AddReceivedGame(game) => {
                if i < state.unread.len() {
                    let k = choose|k: int| 0 <= k < state.entries.len() && state.entries[k] == state.unread[i];
                    assert(next.entries[k] == next.unread[i]);
                } else {
                    assert(next.entries[state.entries.len() as int] == game);
                }
            },
        }
    }
}

} // verus!

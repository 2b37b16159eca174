//! The decryption pipeline: from the newest note of the relay stream to an
//! archive entry, and from there, write by write, to the reducer.
use crate::live_game::AnnotatedGameHistoryAction;
use crate::note::{entry_of, GameEntry, GameEntryView, GameOrigin, Note, NoteView};
use crate::signer::{extract_rumor, is_game, is_game_record, rumor_of};
use vstd::prelude::*;

verus! {

/// The entry that a rumor becomes: a received entry where the rumor's
/// content is a game record, nothing where it is some other message.
pub open spec fn entry_for_rumor(rumor: NoteView, is_game: bool) -> Option<GameEntryView> {
    if is_game {
        Some(entry_of(rumor, GameOrigin::Received))
    } else {
        None
    }
}

/// What the newest of `notes` yields for the holder of `secret`: nothing
/// without an identity, without a note, for a note that does not unwrap, and
/// for a rumor that is no game record; else the received entry.
pub open spec fn received(secret: Option<Seq<char>>, notes: Seq<NoteView>) -> Option<
    GameEntryView,
> {
    match secret {
        None => None,
        Some(key) => if notes.len() == 0 {
            None
        } else {
            match rumor_of(key, notes.last()) {
                None => None,
                Some(rumor) => entry_for_rumor(rumor, is_game_record(rumor.content)),
            }
        },
    }
}

/// Turns an unwrapped rumor into a received entry, given the verdict on its
/// content.
pub fn game_entry_of(rumor: Note, is_game: bool) -> (entry: Option<GameEntry>)
    ensures
        entry.deep_view() == entry_for_rumor(rumor@, is_game),
{
    if is_game {
        Some(GameEntry::from_note(rumor, GameOrigin::Received))
    } else {
        None
    }
}

/// Looks at the newest note only: unwraps it with the local secret key and
/// keeps it where the rumor inside is a game record. Every failure is
/// silent: the note was not for this identity, or not a game.
pub fn receive(secret: &Option<String>, notes: &Vec<Note>) -> (entry: Option<GameEntry>)
    ensures
        entry.deep_view() == received(secret.deep_view(), notes.deep_view()),
{
    let key = match secret {
        Some(key) => key,
        None => {
            return None;
        },
    };
    if notes.len() == 0 {
        return None;
    }
    let newest = &notes[notes.len() - 1];
    assert(notes.deep_view().last() == newest@);
    match extract_rumor(key.as_str(), newest) {
        None => None,
        Some(rumor) => {
            let verdict = is_game(rumor.content.as_str());
            game_entry_of(rumor, verdict)
        },
    }
}

/// What the shell around the library is asked to do for one entry.
#[derive(Debug, PartialEq, Eq)]
pub enum Effect {
    /// Write the entry to the archive, then report whether that worked.
    Persist(GameEntry),
    /// Set the last sync time to now, then report whether that worked.
    AdvanceCursor,
    /// Hand the action to the reducer.
    Dispatch(AnnotatedGameHistoryAction),
    /// Tell the log that the archive refused the entry.
    ReportFailedSave,
}

/// Where one received entry stands on its way into the history.
#[derive(Debug, PartialEq, Eq)]
pub enum Delivery {
    /// The archive write was asked for.
    Persisting(GameEntry),
    /// The entry is stored; the cursor write was asked for.
    Advancing(GameEntry),
    /// The entry was handed to the reducer.
    Delivered,
    /// Nothing more will happen.
    Dropped,
}

impl Delivery {
    /// The state and the request that an entry, or its absence, starts with.
    pub open spec fn started(entry: Option<GameEntry>) -> (Delivery, Option<Effect>) {
        match entry {
            Some(e) => (Delivery::Persisting(e), Some(Effect::Persist(e))),
            None => (Delivery::Dropped, None),
        }
    }

    /// The state and the request that follow the shell's report on the last
    /// request.
    pub open spec fn stepped(self, succeeded: bool) -> (Delivery, Option<Effect>) {
        match self {
            Delivery::Persisting(e) => if succeeded {
                (Delivery::Advancing(e), Some(Effect::AdvanceCursor))
            } else {
                (Delivery::Dropped, Some(Effect::ReportFailedSave))
            },
            Delivery::Advancing(e) => if succeeded {
                (
                    Delivery::Delivered,
                    Some(Effect::Dispatch(AnnotatedGameHistoryAction::AddReceivedGame(e))),
                )
            } else {
                (Delivery::Dropped, None)
            },
            Delivery::Delivered => (Delivery::Delivered, None),
            Delivery::Dropped => (Delivery::Dropped, None),
        }
    }

    /// The state after a run of reports.
    pub open spec fn after(self, reports: Seq<bool>) -> Delivery
        decreases reports.len(),
    {
        if reports.len() == 0 {
            self
        } else {
            self.after(reports.drop_last()).stepped(reports.last()).0
        }
    }

    /// The requests made over a run of reports, those that ask for nothing
    /// left out.
    pub open spec fn requests(self, reports: Seq<bool>) -> Seq<Effect>
        decreases reports.len(),
    {
        if reports.len() == 0 {
            Seq::empty()
        } else {
            let before = self.requests(reports.drop_last());
            match self.after(reports.drop_last()).stepped(reports.last()).1 {
                Some(effect) => before.push(effect),
                None => before,
            }
        }
    }

    /// Starts the delivery of what [`receive`] found: asks for the archive
    /// write of an entry, and for nothing where there is none.
    pub fn start(entry: Option<GameEntry>) -> (res: (Delivery, Option<Effect>))
        ensures
            res.0 == Delivery::started(entry).0,
            match entry {
                Some(e) => res.1 matches Some(Effect::Persist(copy)) && copy@ == e@,
                None => res.1 is None,
            },
    {
        match entry {
            Some(e) => {
                let copy = e.clone();
                (Delivery::Persisting(e), Some(Effect::Persist(copy)))
            },
            None => (Delivery::Dropped, None),
        }
    }

    /// Takes the shell's report on the last request. A stored entry asks
    /// for the cursor write, a written cursor for the dispatch; a failed
    /// write ends the delivery, the first one with a word to the log.
    pub fn step(self, succeeded: bool) -> (res: (Delivery, Option<Effect>))
        ensures
            res == self.stepped(succeeded),
    {
        match self {
            Delivery::Persisting(e) => {
                if succeeded {
                    (Delivery::Advancing(e), Some(Effect::AdvanceCursor))
                } else {
                    (Delivery::Dropped, Some(Effect::ReportFailedSave))
                }
            },
            Delivery::Advancing(e) => {
                if succeeded {
                    (
                        Delivery::Delivered,
                        Some(Effect::Dispatch(AnnotatedGameHistoryAction::AddReceivedGame(e))),
                    )
                } else {
                    (Delivery::Dropped, None)
                }
            },
            Delivery::Delivered => (Delivery::Delivered, None),
            Delivery::Dropped => (Delivery::Dropped, None),
        }
    }
}

/// Where the delivery of `entry` stands after `reports`, and what it has
/// asked for since the archive write: the cursor write after a stored entry,
/// the dispatch after a written cursor, a word to the log after a refused
/// entry, and nothing after that.
pub open spec fn course_of(entry: GameEntry, reports: Seq<bool>) -> (Delivery, Seq<Effect>) {
    let dispatch = Effect::Dispatch(AnnotatedGameHistoryAction::AddReceivedGame(entry));
    if reports.len() == 0 {
        (Delivery::Persisting(entry), Seq::empty())
    } else if !reports[0] {
        (Delivery::Dropped, seq![Effect::ReportFailedSave])
    } else if reports.len() == 1 {
        (Delivery::Advancing(entry), seq![Effect::AdvanceCursor])
    } else if !reports[1] {
        (Delivery::Dropped, seq![Effect::AdvanceCursor])
    } else {
        (Delivery::Delivered, seq![Effect::AdvanceCursor, dispatch])
    }
}

/// A delivery runs the course that [`course_of`] describes, whatever the
/// shell reports and however long it goes on reporting.
pub proof fn lemma_delivery_runs_its_course(entry: GameEntry, reports: Seq<bool>)
    ensures
        Delivery::Persisting(entry).after(reports) == course_of(entry, reports).0,
        Delivery::Persisting(entry).requests(reports) == course_of(entry, reports).1,
    decreases reports.len(),
{
    let start = Delivery::Persisting(entry);
    if reports.len() > 0 {
        let before = reports.drop_last();
        lemma_delivery_runs_its_course(entry, before);
        if before.len() > 0 {
            assert(before[0] == reports[0]);
        }
        if before.len() > 1 {
            assert(before[1] == reports[1]);
        }
        assert(start.requests(reports) =~= course_of(entry, reports).1);
    }
}

/// Persist before cursor before dispatch: the entry reaches the reducer if
/// and only if the archive write and then the cursor write both succeeded,
/// the cursor write is asked for if and only if the archive write succeeded,
/// and the dispatch, where there is one, comes last and carries this entry.
pub proof fn lemma_persist_then_cursor_then_dispatch(entry: GameEntry, reports: Seq<bool>)
    ensures
        ({
            let asked = Delivery::Persisting(entry).requests(reports);
            let dispatch = Effect::Dispatch(AnnotatedGameHistoryAction::AddReceivedGame(entry));
            &&& asked.contains(Effect::AdvanceCursor) <==> reports.len() >= 1 && reports[0]
            &&& asked.contains(dispatch) <==> reports.len() >= 2 && reports[0] && reports[1]
            &&& forall|i: int|
                0 <= i < asked.len() && (#[trigger] asked[i]) is Dispatch ==> asked[i] == dispatch
                    && i == 1 && asked[0] == Effect::AdvanceCursor
            &&& forall|i: int| 0 <= i < asked.len() ==> !((#[trigger] asked[i]) is Persist)
        }),
{
    lemma_delivery_runs_its_course(entry, reports);
    let asked = Delivery::Persisting(entry).requests(reports);
    let dispatch = Effect::Dispatch(AnnotatedGameHistoryAction::AddReceivedGame(entry));
    if reports.len() >= 1 && reports[0] {
        assert(asked[0] == Effect::AdvanceCursor);
    }
    if reports.len() >= 2 && reports[0] && reports[1] {
        assert(asked[1] == dispatch);
    }
}

/// A note that does not unwrap asks for nothing, now or later: no archive
/// write, no cursor write, no dispatch.
pub proof fn lemma_failed_extraction_asks_for_nothing(
    secret: Seq<char>,
    notes: Seq<NoteView>,
    entry: Option<GameEntry>,
    reports: Seq<bool>,
)
    requires
        notes.len() > 0,
        rumor_of(secret, notes.last()) is None,
        entry.deep_view() == received(Some(secret), notes),
    ensures
        entry is None,
        Delivery::started(entry) == (Delivery::Dropped, None::<Effect>),
        Delivery::Dropped.after(reports) == Delivery::Dropped,
        Delivery::Dropped.requests(reports) == Seq::<Effect>::empty(),
{
    lemma_dropped_stays_dropped(reports);
}

/// A dropped delivery stays dropped and asks for nothing.
pub proof fn lemma_dropped_stays_dropped(reports: Seq<bool>)
    ensures
        Delivery::Dropped.after(reports) == Delivery::Dropped,
        Delivery::Dropped.requests(reports) == Seq::<Effect>::empty(),
    decreases reports.len(),
{
    if reports.len() > 0 {
        lemma_dropped_stays_dropped(reports.drop_last());
    }
}

/// An entry that the archive refuses moves no cursor and reaches no
/// reducer: all that is ever asked for is a word to the log.
pub proof fn lemma_failed_save_stops_the_delivery(entry: GameEntry, reports: Seq<bool>)
    requires
        reports.len() > 0,
        !reports[0],
    ensures
        Delivery::Persisting(entry).after(reports) == Delivery::Dropped,
        Delivery::Persisting(entry).requests(reports) == seq![Effect::ReportFailedSave],
{
    lemma_delivery_runs_its_course(entry, reports);
}

} // verus!

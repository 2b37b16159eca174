//! What sharing, sending, saving and importing a game ask of the shell, step
//! by step and in order.
use crate::live_game::AnnotatedGameHistoryAction;
use crate::note::{entry_of, GameEntry, GameEntryView, GameOrigin, Note, NoteView};
use crate::signer::{is_signed_form_of, is_wrap_for, private_dm, sign_note, signed_by};
use crate::text::concat;
use vstd::prelude::*;

verus! {

/// A message for the user.
#[derive(Clone, Copy, Debug, PartialEq, Eq, Structural)]
pub enum Notice {
    SignFailed,
    GameShared,
    SaveFailed,
    RecipientNotFound,
    DmFailed,
    DmSent,
    NoKeypair,
    GameSaved,
    FetchFailed,
    NoGamesFound,
    GamesSaved,
    RelayExists,
    RelayAdded,
    RelayRemoved,
    DetailsUpdated,
}

impl Notice {
    /// Whether the message tells of a success.
    pub open spec fn succeeded(self) -> bool {
        self is GameShared || self is DmSent || self is GameSaved || self is GamesSaved
            || self is RelayAdded || self is RelayRemoved || self is DetailsUpdated
    }

    /// Whether the message tells of a success.
    pub fn is_success(&self) -> (res: bool)
        ensures
            res == self.succeeded(),
    {
        match self {
            Notice::GameShared
            | Notice::DmSent
            | Notice::GameSaved
            | Notice::GamesSaved
            | Notice::RelayAdded
            | Notice::RelayRemoved
            | Notice::DetailsUpdated => true,
            _ => false,
        }
    }

    /// The words of the message.
    pub fn message(&self) -> (res: &'static str)
        ensures
            res@ == match self {
                Notice::SignFailed => "Failed to sign note"@,
                Notice::GameShared => "Game shared successfully"@,
                Notice::SaveFailed => "Failed to save game"@,
                Notice::RecipientNotFound => "Recipient not found"@,
                Notice::DmFailed => "Failed to send DM"@,
                Notice::DmSent => "DM sent successfully"@,
                Notice::NoKeypair => "No Nostr keypair found"@,
                Notice::GameSaved => "Game saved successfully"@,
                Notice::FetchFailed => "Failed to fetch games. Please check your query parameters."@,
                Notice::NoGamesFound => "No games found for the given query."@,
                Notice::GamesSaved => "Games saved successfully!"@,
                Notice::RelayExists => "Relay already exists"@,
                Notice::RelayAdded => "Relay added successfully"@,
                Notice::RelayRemoved => "Relay removed successfully"@,
                Notice::DetailsUpdated => "Game details updated"@,
            },
    {
        match self {
            Notice::SignFailed => "Failed to sign note",
            Notice::GameShared => "Game shared successfully",
            Notice::SaveFailed => "Failed to save game",
            Notice::RecipientNotFound => "Recipient not found",
            Notice::DmFailed => "Failed to send DM",
            Notice::DmSent => "DM sent successfully",
            Notice::NoKeypair => "No Nostr keypair found",
            Notice::GameSaved => "Game saved successfully",
            Notice::FetchFailed => "Failed to fetch games. Please check your query parameters.",
            Notice::NoGamesFound => "No games found for the given query.",
            Notice::GamesSaved => "Games saved successfully!",
            Notice::RelayExists => "Relay already exists",
            Notice::RelayAdded => "Relay added successfully",
            Notice::RelayRemoved => "Relay removed successfully",
            Notice::DetailsUpdated => "Game details updated",
        }
    }
}

/// One thing for the shell to do.
#[derive(Debug, PartialEq, Eq)]
pub enum Command {
    /// Hand the action to the reducer.
    Dispatch(AnnotatedGameHistoryAction),
    /// Write the entry to the archive; a refusal is told to the user.
    Persist(GameEntry),
    /// Send the note to the relays.
    Publish(Note),
    /// Offer a file for download.
    Download { file_name: String, content: String },
    /// Show the message.
    Notify(Notice),
}

/// `c` hands the addition of `entry` to the reducer.
pub open spec fn adds(c: Command, entry: GameEntryView) -> bool {
    c matches Command::Dispatch(AnnotatedGameHistoryAction::AddGame(e)) && e@ == entry
}

/// `c` writes `entry` to the archive.
pub open spec fn persists(c: Command, entry: GameEntryView) -> bool {
    c matches Command::Persist(e) && e@ == entry
}

/// `c` sends `note` to the relays.
pub open spec fn publishes(c: Command, note: NoteView) -> bool {
    c matches Command::Publish(n) && n@ == note
}

/// `c` offers `content` for download under `file_name`.
pub open spec fn downloads(c: Command, file_name: Seq<char>, content: Seq<char>) -> bool {
    c matches Command::Download { file_name: f, content: t } && f@ == file_name && t@ == content
}

/// The name of the file that a game with this id is saved under.
pub open spec fn file_name_of(id: Seq<char>) -> Seq<char> {
    "game-"@ + id + ".pgn"@
}

/// What publishing a game asks for, given the outcome of signing it: a
/// failure notice, or the addition to the history, the archive write, the
/// note sent to the relays and the success notice, in that order.
pub open spec fn shares(cmds: Seq<Command>, signed: Option<NoteView>) -> bool {
    match signed {
        None => cmds == seq![Command::Notify(Notice::SignFailed)],
        Some(note) => {
            &&& cmds.len() == 4
            &&& adds(cmds[0], entry_of(note, GameOrigin::Annotated))
            &&& persists(cmds[1], entry_of(note, GameOrigin::Annotated))
            &&& publishes(cmds[2], note)
            &&& cmds[3] == Command::Notify(Notice::GameShared)
        },
    }
}

/// What publishing a game asks for, given the outcome of signing it.
pub fn share_signed(signed: Option<Note>) -> (cmds: Vec<Command>)
    ensures
        shares(cmds@, signed.deep_view()),
{
    let mut cmds: Vec<Command> = Vec::new();
    match signed {
        None => {
            cmds.push(Command::Notify(Notice::SignFailed));
            assert(cmds@ =~= seq![Command::Notify(Notice::SignFailed)]);
        },
        Some(note) => {
            let entry = GameEntry::from_note(note.clone(), GameOrigin::Annotated);
            cmds.push(Command::Dispatch(AnnotatedGameHistoryAction::AddGame(entry.clone())));
            cmds.push(Command::Persist(entry));
            cmds.push(Command::Publish(note));
            cmds.push(Command::Notify(Notice::GameShared));
        },
    }
    cmds
}

/// Signs a game's note with the local secret key and says what publishing
/// it asks for. What is published and stored is the game as it was handed
/// in, with an id and a signature.
pub fn share_game(secret: &str, game: &Note) -> (cmds: Vec<Command>)
    ensures
        shares(cmds@, signed_by(secret@, game@)),
        signed_by(secret@, game@) matches Some(signed) ==> is_signed_form_of(signed, game@),
{
    share_signed(sign_note(secret, game))
}

/// What sending a game by direct message asks for, given the recipient read
/// from the form, the outcome of signing the game and the outcome of
/// wrapping the message: a failure notice; or the wrap sent to the relays,
/// the addition of the signed game to the history and the success notice.
/// The game is not written to the archive on this path.
pub open spec fn sends(
    cmds: Seq<Command>,
    has_recipient: bool,
    signed: Option<NoteView>,
    wrapped: Option<NoteView>,
) -> bool {
    if !has_recipient {
        cmds == seq![Command::Notify(Notice::RecipientNotFound)]
    } else {
        match (signed, wrapped) {
            (None, _) => cmds == seq![Command::Notify(Notice::SignFailed)],
            (Some(_), None) => cmds == seq![Command::Notify(Notice::DmFailed)],
            (Some(note), Some(wrap)) => {
                &&& cmds.len() == 3
                &&& publishes(cmds[0], wrap)
                &&& adds(cmds[1], entry_of(note, GameOrigin::Annotated))
                &&& cmds[2] == Command::Notify(Notice::DmSent)
            },
        }
    }
}

/// What sending a game by direct message asks for, given what the form,
/// the signing and the wrapping came to.
pub fn send_wrapped(has_recipient: bool, signed: Option<Note>, wrapped: Option<Note>) -> (cmds:
    Vec<Command>)
    ensures
        sends(cmds@, has_recipient, signed.deep_view(), wrapped.deep_view()),
{
    let mut cmds: Vec<Command> = Vec::new();
    if !has_recipient {
        cmds.push(Command::Notify(Notice::RecipientNotFound));
        assert(cmds@ =~= seq![Command::Notify(Notice::RecipientNotFound)]);
        return cmds;
    }
    match (signed, wrapped) {
        (None, _) => {
            cmds.push(Command::Notify(Notice::SignFailed));
            assert(cmds@ =~= seq![Command::Notify(Notice::SignFailed)]);
        },
        (Some(_), None) => {
            cmds.push(Command::Notify(Notice::DmFailed));
            assert(cmds@ =~= seq![Command::Notify(Notice::DmFailed)]);
        },
        (Some(note), Some(wrap)) => {
            let entry = GameEntry::from_note(note, GameOrigin::Annotated);
            cmds.push(Command::Publish(wrap));
            cmds.push(Command::Dispatch(AnnotatedGameHistoryAction::AddGame(entry)));
            cmds.push(Command::Notify(Notice::DmSent));
        },
    }
    cmds
}

/// The text that is sent to the recipient of a game: the game's content.
pub fn message_of(game: &Note) -> (text: String)
    ensures
        text@ == game@.content,
{
    game.content.clone()
}

/// Whether `cmds` send a game to `to`: a gift wrap addressed to `to` goes to
/// the relays, the signed game is added to the history, and the success is
/// told.
pub open spec fn sends_to(cmds: Seq<Command>, to: Seq<char>, signed: NoteView) -> bool {
    &&& cmds.len() == 3
    &&& cmds[0] matches Command::Publish(wrap)
    &&& is_wrap_for(wrap@, to)
    &&& adds(cmds[1], entry_of(signed, GameOrigin::Annotated))
    &&& cmds[2] == Command::Notify(Notice::DmSent)
}

/// Signs a game's note, wraps the game's text for the recipient and says
/// what sending it asks for. The wrap is made with a throwaway key and the
/// time of the call: it is a gift wrap addressed to the recipient, and
/// what it holds can be read by the recipient alone.
pub fn send_game(secret: &str, game: &Note, recipient: Option<&str>) -> (cmds: Vec<Command>)
    ensures
        recipient is None ==> cmds@ == seq![Command::Notify(Notice::RecipientNotFound)],
        recipient is Some && signed_by(secret@, game@) is None ==> cmds@ == seq![
            Command::Notify(Notice::SignFailed),
        ],
        match (recipient, signed_by(secret@, game@)) {
            (Some(to), Some(signed)) => {
                &&& is_signed_form_of(signed, game@)
                &&& cmds@ == seq![Command::Notify(Notice::DmFailed)] || sends_to(
                    cmds@,
                    to@,
                    signed,
                )
            },
            _ => true,
        },
{
    match recipient {
        None => send_wrapped(false, None, None),
        Some(to) => {
            let signed = sign_note(secret, game);
            let wrapped = if signed.is_some() {
                let text = message_of(game);
                private_dm(secret, text.as_str(), to)
            } else {
                None
            };
            send_wrapped(true, signed, wrapped)
        },
    }
}

/// What saving a game to a file asks for, given whether there is a local
/// key and the outcome of signing: a failure notice; or the archive write,
/// the addition to the history, the download of the game's text under a
/// name made of the note's id, and the success notice, in that order.
pub open spec fn saves(
    cmds: Seq<Command>,
    has_key: bool,
    signed: Option<NoteView>,
    pgn: Seq<char>,
) -> bool {
    if !has_key {
        cmds == seq![Command::Notify(Notice::NoKeypair)]
    } else {
        match signed {
            None => cmds == seq![Command::Notify(Notice::SignFailed)],
            Some(note) => {
                let entry = entry_of(note, GameOrigin::Annotated);
                &&& cmds.len() == 4
                &&& persists(cmds[0], entry)
                &&& adds(cmds[1], entry)
                &&& downloads(cmds[2], file_name_of(entry.id), pgn)
                &&& cmds[3] == Command::Notify(Notice::GameSaved)
            },
        }
    }
}

/// What saving a game to a file asks for, given what the signing came to.
pub fn save_signed(has_key: bool, signed: Option<Note>, pgn: &str) -> (cmds: Vec<Command>)
    ensures
        saves(cmds@, has_key, signed.deep_view(), pgn@),
{
    let mut cmds: Vec<Command> = Vec::new();
    if !has_key {
        cmds.push(Command::Notify(Notice::NoKeypair));
        assert(cmds@ =~= seq![Command::Notify(Notice::NoKeypair)]);
        return cmds;
    }
    match signed {
        None => {
            cmds.push(Command::Notify(Notice::SignFailed));
            assert(cmds@ =~= seq![Command::Notify(Notice::SignFailed)]);
        },
        Some(note) => {
            let entry = GameEntry::from_note(note, GameOrigin::Annotated);
            let stem = concat("game-", entry.id.as_str());
            let file_name = concat(stem.as_str(), ".pgn");
            cmds.push(Command::Persist(entry.clone()));
            cmds.push(Command::Dispatch(AnnotatedGameHistoryAction::AddGame(entry)));
            cmds.push(Command::Download { file_name, content: pgn.to_owned() });
            cmds.push(Command::Notify(Notice::GameSaved));
        },
    }
    cmds
}

/// Signs a game's note with the local secret key, if there is one, and says
/// what saving it to a file asks for.
pub fn save_game(secret: &Option<String>, game: &Note, pgn: &str) -> (cmds: Vec<Command>)
    ensures
        saves(
            cmds@,
            secret is Some,
            match *secret {
                Some(key) => signed_by(key@, game@),
                None => None,
            },
            pgn@,
        ),
        match *secret {
            Some(key) => signed_by(key@, game@) matches Some(signed) ==> is_signed_form_of(
                signed,
                game@,
            ),
            None => true,
        },
{
    match secret {
        None => save_signed(false, None, pgn),
        Some(key) => save_signed(true, sign_note(key.as_str(), game), pgn),
    }
}

/// What the archive's answer to a write on these paths means for the user:
/// a refusal is told, a success is not.
pub fn persist_report(succeeded: bool) -> (notice: Option<Notice>)
    ensures
        notice == if succeeded {
            None
        } else {
            Some(Notice::SaveFailed)
        },
{
    if succeeded {
        None
    } else {
        Some(Notice::SaveFailed)
    }
}

/// The entry of a game imported from a public server, given the outcome of
/// signing its note: a game that cannot be signed is skipped.
pub fn import_signed(signed: Option<Note>) -> (entry: Option<GameEntry>)
    ensures
        entry.deep_view() == match signed.deep_view() {
            Some(note) => Some(entry_of(note, GameOrigin::Public)),
            None => None,
        },
{
    match signed {
        Some(note) => Some(GameEntry::from_note(note, GameOrigin::Public)),
        None => None,
    }
}

/// Signs the note of an imported game and makes its entry.
pub fn import_game(secret: &str, game: &Note) -> (entry: Option<GameEntry>)
    ensures
        entry.deep_view() == match signed_by(secret@, game@) {
            Some(note) => Some(entry_of(note, GameOrigin::Public)),
            None => None,
        },
        signed_by(secret@, game@) matches Some(signed) ==> is_signed_form_of(signed, game@),
{
    import_signed(sign_note(secret, game))
}

/// What follows the archive's answer for an imported entry: a stored entry
/// is added to the history, a refused one is skipped.
pub fn imported(entry: GameEntry, saved: bool) -> (action: Option<AnnotatedGameHistoryAction>)
    ensures
        action == if saved {
            Some(AnnotatedGameHistoryAction::AddGame(entry))
        } else {
            None
        },
{
    if saved {
        Some(AnnotatedGameHistoryAction::AddGame(entry))
    } else {
        None
    }
}

/// The notice that ends an import, by the number of games the server sent:
/// whether or not each of them could be stored.
pub fn import_summary(games_seen: usize) -> (notice: Notice)
    ensures
        notice == if games_seen == 0 {
            Notice::NoGamesFound
        } else {
            Notice::GamesSaved
        },
{
    if games_seen == 0 {
        Notice::NoGamesFound
    } else {
        Notice::GamesSaved
    }
}

} // verus!

//! Notes as they travel over the relays, and the archive entries built from them.
use crate::text::same_text;
use vstd::prelude::*;

verus! {

/// How a game came into the archive.
#[derive(Clone, Copy, Debug, PartialEq, Eq, Structural)]
pub enum GameOrigin {
    /// Authored on this device.
    Annotated,
    /// Unwrapped from a direct message.
    Received,
    /// Imported from a public game server.
    Public,
    /// Stored without an origin this client knows; never produced here.
    Unknown,
}

/// A signed, possibly encrypted message unit exchanged with relays.
#[derive(Debug, PartialEq, Eq)]
pub struct Note {
    pub pubkey: String,
    pub created_at: i64,
    pub kind: u32,
    pub tags: Vec<Vec<String>>,
    pub content: String,
    pub id: Option<String>,
    pub sig: Option<String>,
}

/// The mathematical value of a [`Note`].
#[verifier::ext_equal]
pub struct NoteView {
    pub pubkey: Seq<char>,
    pub created_at: i64,
    pub kind: u32,
    pub tags: Seq<Seq<Seq<char>>>,
    pub content: Seq<char>,
    pub id: Option<Seq<char>>,
    pub sig: Option<Seq<char>>,
}

impl View for Note {
    type V = NoteView;

    open spec fn view(&self) -> NoteView {
        NoteView {
            pubkey: self.pubkey@,
            created_at: self.created_at,
            kind: self.kind,
            tags: self.tags.deep_view(),
            content: self.content@,
            id: self.id.deep_view(),
            sig: self.sig.deep_view(),
        }
    }
}

impl DeepView for Note {
    type V = NoteView;

    open spec fn deep_view(&self) -> NoteView {
        self@
    }
}

/// A copy of an optional string.
pub fn clone_text(s: &Option<String>) -> (res: Option<String>)
    ensures
        res.deep_view() == s.deep_view(),
{
    match s {
        Some(t) => Some(t.clone()),
        None => None,
    }
}

impl Clone for Note {
    fn clone(&self) -> (res: Self)
        ensures
            res@ == self@,
    {
        let tags = self.tags.clone();
        Note {
            pubkey: self.pubkey.clone(),
            created_at: self.created_at,
            kind: self.kind,
            tags,
            content: self.content.clone(),
            id: clone_text(&self.id),
            sig: clone_text(&self.sig),
        }
    }
}

/// One archived game: the note that carries it, the note's id, and its origin.
#[derive(Debug, PartialEq, Eq)]
pub struct GameEntry {
    pub id: String,
    pub note: Note,
    pub origin: GameOrigin,
}

/// The mathematical value of a [`GameEntry`].
#[verifier::ext_equal]
pub struct GameEntryView {
    pub id: Seq<char>,
    pub note: NoteView,
    pub origin: GameOrigin,
}

impl View for GameEntry {
    type V = GameEntryView;

    open spec fn view(&self) -> GameEntryView {
        GameEntryView { id: self.id@, note: self.note@, origin: self.origin }
    }
}

impl DeepView for GameEntry {
    type V = GameEntryView;

    open spec fn deep_view(&self) -> GameEntryView {
        self@
    }
}

impl Clone for GameEntry {
    fn clone(&self) -> (res: Self)
        ensures
            res@ == self@,
    {
        GameEntry { id: self.id.clone(), note: self.note.clone(), origin: self.origin }
    }
}

/// The entry that stands for `note` in the archive: keyed by the note's id,
/// or by the empty string where the note has none.
pub open spec fn entry_of(note: NoteView, origin: GameOrigin) -> GameEntryView {
    GameEntryView {
        id: match note.id {
            Some(id) => id,
            None => Seq::empty(),
        },
        note,
        origin,
    }
}

impl GameEntry {
    /// Wraps a note into an archive entry of the given origin.
    pub fn from_note(note: Note, origin: GameOrigin) -> (entry: Self)
        ensures
            entry@ == entry_of(note@, origin),
    {
        let id = match &note.id {
            Some(id) => id.clone(),
            None => String::new(),
        };
        GameEntry { id, note, origin }
    }

    /// The key under which the archive keeps the entry: the id of its
    /// note, or the empty text where the note has none.
    pub fn archive_key(&self) -> (key: String)
        ensures
            key@ == entry_of(self@.note, self@.origin).id,
    {
        match &self.note.id {
            Some(id) => id.clone(),
            None => String::new(),
        }
    }

    /// Whether the carried note has exactly this id.
    pub fn has_note_id(&self, id: &str) -> (res: bool)
        ensures
            res == (self@.note.id == Some(id@)),
    {
        match &self.note.id {
            Some(own) => same_text(own.as_str(), id),
            None => false,
        }
    }
}

/// An entry made from a note is kept under its own id.
pub proof fn lemma_entry_is_keyed_by_its_id(note: NoteView, origin: GameOrigin)
    ensures
        entry_of(entry_of(note, origin).note, origin).id == entry_of(note, origin).id,
        entry_of(note, origin).note == note,
        entry_of(note, origin).origin == origin,
{
}

/// A copy of a list of entries.
pub fn clone_entries(entries: &Vec<GameEntry>) -> (res: Vec<GameEntry>)
    ensures
        res.deep_view() == entries.deep_view(),
{
    let mut res: Vec<GameEntry> = Vec::new();
    let mut i: usize = 0;
    while i < entries.len()
        invariant
            i <= entries.len(),
            res.len() == i,
            forall|k: int| 0 <= k < i ==> res[k]@ == entries[k]@,
        decreases entries.len() - i,
    {
        res.push(entries[i].clone());
        i += 1;
    }
    assert(res.deep_view() =~= entries.deep_view());
    res
}

} // verus!

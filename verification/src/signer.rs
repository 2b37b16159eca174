//! What only the signing and chess crates can compute: unwrapping a gift
//! wrap, signing a note, wrapping a direct message, and telling whether a
//! text is a game record. Nothing in this file is proved; each contract
//! states what the outside function's source shows.
use crate::note::{Note, NoteView};
use crate::sync::GIFT_WRAP_KIND;
use nostro2_signer::keypair::NostrKeypair;
use nostro2_signer::nostro2_nips::Nip17;
use vstd::prelude::*;

verus! {

/// The rumor that the holder of the secret key `secret` (hex or `nsec` text)
/// finds inside the gift wrap `wrapped`, if there is one.
pub uninterp spec fn rumor_of(secret: Seq<char>, wrapped: NoteView) -> Option<NoteView>;

/// `note`, signed by the holder of the secret key `secret`.
pub uninterp spec fn signed_by(secret: Seq<char>, note: NoteView) -> Option<NoteView>;

/// Whether `signed` is `note` with a signature: the same time, kind, tags
/// and content, and an id and a signature on top.
pub open spec fn is_signed_form_of(signed: NoteView, note: NoteView) -> bool {
    &&& signed.created_at == note.created_at
    &&& signed.kind == note.kind
    &&& signed.tags == note.tags
    &&& signed.content == note.content
    &&& signed.id is Some
    &&& signed.sig is Some
}

/// Whether `wrap` is a gift wrap addressed to `recipient`: of the kind of
/// gift wraps, tagged with the recipient's public key and nothing else,
/// with an id and a signature.
pub open spec fn is_wrap_for(wrap: NoteView, recipient: Seq<char>) -> bool {
    &&& wrap.kind == GIFT_WRAP_KIND
    &&& wrap.tags == seq![seq!["p"@, recipient]]
    &&& wrap.id is Some
    &&& wrap.sig is Some
}

/// Whether `content` reads as a game record: a PGN text with at least one move.
pub uninterp spec fn is_game_record(content: Seq<char>) -> bool;

/// Calls `NostrKeypair::extract_rumor` of nostro2-signer with the key that
/// `secret` parses to. The call checks both signatures, decrypts the wrap
/// and the seal inside it, and hands out the innermost note; it reads no
/// clock and draws no random number, so its result is named by [`rumor_of`].
/// `None` stands for a key that does not parse and for every failure of the
/// call.
#[verifier::external_body]
pub(crate) fn extract_rumor(secret: &str, wrapped: &Note) -> (rumor: Option<Note>)
    ensures
        rumor.deep_view() == rumor_of(secret@, wrapped@),
{
    let key = secret.parse::<NostrKeypair>().ok()?;
    let mut outside = nostro2::NostrNote {
        pubkey: wrapped.pubkey.clone(), created_at: wrapped.created_at, kind: wrapped.kind,
        content: wrapped.content.clone(), id: wrapped.id.clone(), sig: wrapped.sig.clone(),
        ..Default::default()
    };
    outside.tags.0 = wrapped.tags.clone();
    let found = key.extract_rumor(&outside).ok()?;
    Some(Note {
        pubkey: found.pubkey, created_at: found.created_at, kind: found.kind,
        tags: found.tags.0, content: found.content, id: found.id, sig: found.sig,
    })
}

/// Calls `NostrKeypair::sign_note` of nostro2-signer with the key that
/// `secret` parses to. The call sets the note's public key, its id (the hash
/// of its serialised fields) and a Schnorr signature made without auxiliary
/// randomness, so its result is named by [`signed_by`]; it leaves the
/// note's time, kind, tags and content as they are. `None` stands for a
/// key that does not parse and for a failure of the call.
#[verifier::external_body]
pub(crate) fn sign_note(secret: &str, note: &Note) -> (signed: Option<Note>)
    ensures
        signed.deep_view() == signed_by(secret@, note@),
        signed matches Some(s) ==> is_signed_form_of(s@, note@),
{
    let key = secret.parse::<NostrKeypair>().ok()?;
    let mut outside = nostro2::NostrNote {
        pubkey: note.pubkey.clone(), created_at: note.created_at, kind: note.kind,
        content: note.content.clone(), id: note.id.clone(), sig: note.sig.clone(),
        ..Default::default()
    };
    outside.tags.0 = note.tags.clone();
    key.sign_note(&mut outside).ok()?;
    Some(Note {
        pubkey: outside.pubkey, created_at: outside.created_at, kind: outside.kind,
        tags: outside.tags.0, content: outside.content, id: outside.id, sig: outside.sig,
    })
}

/// Calls `Nip17::private_dm` of nostro2-nips with the key that `secret`
/// parses to. The wrap is signed by a throwaway key drawn at random and is
/// stamped with the time of the call, so its content, author, id and
/// signature differ from call to call; every wrap is of the kind of gift
/// wraps, carries the recipient's public key as its one tag, and has an id
/// and a signature. `None` stands for a key that does not parse and for
/// every failure of the call.
#[verifier::external_body]
pub(crate) fn private_dm(secret: &str, message: &str, recipient: &str) -> (wrapped: Option<Note>)
    ensures
        wrapped matches Some(w) ==> is_wrap_for(w@, recipient@),
{
    let key = secret.parse::<NostrKeypair>().ok()?;
    let made = key.private_dm(message, recipient).ok()?;
    Some(Note {
        pubkey: made.pubkey, created_at: made.created_at, kind: made.kind,
        tags: made.tags.0, content: made.content, id: made.id, sig: made.sig,
    })
}

/// Calls `RookyGame::try_from` of rooky-core on a note with this content.
/// The conversion reads the note's content only: it parses it as PGN and
/// refuses a text without moves. Its verdict is named by [`is_game_record`].
#[verifier::external_body]
pub(crate) fn is_game(content: &str) -> (ok: bool)
    ensures
        ok == is_game_record(content@),
{
    let outside = nostro2::NostrNote { content: content.to_owned(), ..Default::default() };
    rooky_core::RookyGame::try_from(outside).is_ok()
}

/// The two players, the outcome and the event of the game that a stored
/// content holds, as rooky-core reads them and writes them out.
pub uninterp spec fn game_columns(content: Seq<char>) -> (
    Seq<char>,
    Seq<char>,
    Seq<char>,
    Seq<char>,
);

/// The name of the opening of the game that a stored content holds, where
/// rooky-core knows one.
pub uninterp spec fn opening_of(content: Seq<char>) -> Option<Seq<char>>;

/// Calls the conversion from a stored entry to a `RookyGame` of rooky-core,
/// which parses the entry's content and falls back to an empty game, and
/// hands out the game's day, its two players, its outcome and its event,
/// the last two as they are written out. The texts depend on the content
/// alone and are named by [`game_columns`]; a game without a date is given
/// the day of the call, so nothing is promised of the day.
#[verifier::external_body]
pub(crate) fn summarize(content: &str) -> (row: (i32, String, String, String, String))
    ensures
        (row.1@, row.2@, row.3@, row.4@) == game_columns(content@),
{
    let note = nostro2::NostrNote { content: content.to_owned(), ..Default::default() };
    let origin = rooky_core::idb::GameOrigin::Unknown;
    let entry = rooky_core::idb::RookyGameEntry { id: String::new(), note, origin };
    let game = rooky_core::RookyGame::from(entry);
    let day = chrono::Datelike::num_days_from_ce(&game.date);
    (day, game.white, game.black, game.outcome.to_string(), game.event.to_string())
}

/// Calls `RookyGame::opening` of rooky-core on the game of a stored
/// content: the first opening of its table whose moves the game begins
/// with. The result is named by [`opening_of`].
#[verifier::external_body]
pub(crate) fn opening_name(content: &str) -> (name: Option<String>)
    ensures
        name.deep_view() == opening_of(content@),
{
    let note = nostro2::NostrNote { content: content.to_owned(), ..Default::default() };
    let origin = rooky_core::idb::GameOrigin::Unknown;
    let entry = rooky_core::idb::RookyGameEntry { id: String::new(), note, origin };
    rooky_core::RookyGame::from(entry).opening().map(|o| o.name)
}

} // verus!

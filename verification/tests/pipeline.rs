use bunker::live_game::{AnnotatedGameHistory, AnnotatedGameHistoryAction};
use bunker::note::{GameEntry, GameOrigin, Note};
use bunker::pipeline::{game_entry_of, receive, Delivery, Effect};
use nostro2_signer::keypair::NostrKeypair;
use nostro2_signer::nostro2_nips::Nip17;

const ALICE: &str = "a992011980303ea8c43f66087634283026e7796e7fcea8b61710239e19ee28c8";
const BOB: &str = "1c5e0d1b7a6f4a3d9e8c7b6a5f4e3d2c1b0a99887766554433221100ffeeddcc";
const CAROL: &str = "2d6f1e2c8b7a5b4eaf9d8c7b6a5f4e3d2c1b0a99887766554433221100ffee01";

const PGN: &str = "[Event \"Casual Game\"]\n[Site \"?\"]\n[Round \"?\"]\n[Date \"2024.01.02\"]\n[White \"Ann\"]\n[Black \"Ben\"]\n[Result \"1-0\"]\n\n1. e4 e5 2. Nf3 Nc6 1-0\n";

fn keys(secret: &str) -> NostrKeypair {
    secret.parse().unwrap()
}

fn from_outside(n: nostro2::NostrNote) -> Note {
    Note {
        pubkey: n.pubkey,
        created_at: n.created_at,
        kind: n.kind,
        tags: n.tags.0,
        content: n.content,
        id: n.id,
        sig: n.sig,
    }
}

fn wrapped(from: &str, to: &str, message: &str) -> Note {
    from_outside(keys(from).private_dm(message, &keys(to).public_key()).unwrap())
}

fn rumor(id: Option<&str>) -> Note {
    Note {
        pubkey: keys(ALICE).public_key(),
        created_at: 1_700_000_000,
        kind: 14,
        tags: vec![],
        content: PGN.to_string(),
        id: id.map(str::to_string),
        sig: None,
    }
}

fn entry(id: &str) -> GameEntry {
    GameEntry::from_note(rumor(Some(id)), GameOrigin::Received)
}

#[test]
fn a_game_sent_by_direct_message_becomes_a_received_entry() {
    let note = wrapped(ALICE, BOB, PGN);
    assert_eq!(note.kind, 1059);
    let found = receive(&Some(BOB.to_string()), &vec![note.clone()]).unwrap();
    assert_eq!(found.origin, GameOrigin::Received);
    assert_eq!(found.note.content, PGN);
    assert_eq!(found.note.kind, 14);
    assert_eq!(found.note.pubkey, keys(ALICE).public_key());
    assert_eq!(Some(found.id.clone()), found.note.id);
    assert!(!found.id.is_empty());
    assert!(found.note != note);
}

#[test]
fn a_note_for_someone_else_is_dropped() {
    let note = wrapped(ALICE, BOB, PGN);
    assert_eq!(receive(&Some(CAROL.to_string()), &vec![note]), None);
}

#[test]
fn a_note_that_is_no_gift_wrap_is_dropped() {
    let mut plain = nostro2::NostrNote { content: PGN.to_string(), kind: 1, ..Default::default() };
    keys(ALICE).sign_note(&mut plain).unwrap();
    assert_eq!(receive(&Some(BOB.to_string()), &vec![from_outside(plain)]), None);
    assert_eq!(receive(&Some(BOB.to_string()), &vec![rumor(Some("ab"))]), None);
}

#[test]
fn a_tampered_gift_wrap_is_dropped() {
    let mut note = wrapped(ALICE, BOB, PGN);
    note.content.push('A');
    assert_eq!(receive(&Some(BOB.to_string()), &vec![note]), None);
}

#[test]
fn a_direct_message_that_is_no_game_is_dropped() {
    let note = wrapped(ALICE, BOB, "see you at the club tonight");
    assert_eq!(receive(&Some(BOB.to_string()), &vec![note]), None);
    let headers_only = wrapped(ALICE, BOB, "[Event \"Casual Game\"]\n\n*\n");
    assert_eq!(receive(&Some(BOB.to_string()), &vec![headers_only]), None);
}

#[test]
fn nothing_is_received_without_an_identity_or_without_a_note() {
    let note = wrapped(ALICE, BOB, PGN);
    assert_eq!(receive(&None, &vec![note]), None);
    assert_eq!(receive(&Some(BOB.to_string()), &vec![]), None);
    assert_eq!(receive(&Some("not a key".to_string()), &vec![wrapped(ALICE, BOB, PGN)]), None);
}

#[test]
fn only_the_newest_note_of_an_update_is_looked_at() {
    let first = wrapped(ALICE, BOB, PGN);
    let second = wrapped(ALICE, BOB, "not a game");
    // two notes in one update: the older one is never unwrapped
    assert_eq!(receive(&Some(BOB.to_string()), &vec![first.clone(), second.clone()]), None);
    let found = receive(&Some(BOB.to_string()), &vec![second, first]).unwrap();
    assert_eq!(found.note.content, PGN);
}

#[test]
fn a_rumor_becomes_an_entry_only_where_it_is_a_game() {
    assert_eq!(game_entry_of(rumor(Some("abc")), false), None);
    assert_eq!(
        game_entry_of(rumor(Some("abc")), true),
        Some(GameEntry { id: "abc".to_string(), note: rumor(Some("abc")), origin: GameOrigin::Received })
    );
    assert_eq!(
        game_entry_of(rumor(None), true),
        Some(GameEntry { id: String::new(), note: rumor(None), origin: GameOrigin::Received })
    );
}

#[test]
fn a_delivery_starts_with_the_archive_write() {
    assert_eq!(
        Delivery::start(Some(entry("a"))),
        (Delivery::Persisting(entry("a")), Some(Effect::Persist(entry("a"))))
    );
    assert_eq!(Delivery::start(None), (Delivery::Dropped, None));
}

#[test]
fn a_stored_entry_moves_the_cursor_and_then_reaches_the_reducer() {
    let (state, asked) = Delivery::start(Some(entry("a")));
    assert_eq!(asked, Some(Effect::Persist(entry("a"))));
    let (state, asked) = state.step(true);
    assert_eq!(state, Delivery::Advancing(entry("a")));
    assert_eq!(asked, Some(Effect::AdvanceCursor));
    let (state, asked) = state.step(true);
    assert_eq!(state, Delivery::Delivered);
    assert_eq!(asked, Some(Effect::Dispatch(AnnotatedGameHistoryAction::AddReceivedGame(entry("a")))));
    let (state, asked) = state.step(true);
    assert_eq!(state, Delivery::Delivered);
    assert_eq!(asked, None);
}

#[test]
fn a_refused_entry_moves_no_cursor_and_reaches_no_reducer() {
    let (state, _) = Delivery::start(Some(entry("a")));
    let (state, asked) = state.step(false);
    assert_eq!(state, Delivery::Dropped);
    assert_eq!(asked, Some(Effect::ReportFailedSave));
    for report in [true, false, true] {
        assert_eq!(Delivery::Dropped.step(report), (Delivery::Dropped, None));
    }
}

#[test]
fn a_failed_cursor_write_reaches_no_reducer() {
    let (state, _) = Delivery::start(Some(entry("a")));
    let (state, _) = state.step(true);
    let (state, asked) = state.step(false);
    assert_eq!(state, Delivery::Dropped);
    assert_eq!(asked, None);
}

#[test]
fn a_received_game_ends_up_unread_in_the_history() {
    let note = wrapped(ALICE, BOB, PGN);
    let mut history = AnnotatedGameHistory::new(vec![]);
    let (mut state, mut asked) = Delivery::start(receive(&Some(BOB.to_string()), &vec![note]));
    let mut writes = 0;
    while let Some(effect) = asked {
        match effect {
            Effect::Dispatch(action) => {
                history = history.reduce(action);
                asked = None;
            }
            Effect::Persist(_) | Effect::AdvanceCursor => {
                writes += 1;
                let next = state.step(true);
                state = next.0;
                asked = next.1;
            }
            Effect::ReportFailedSave => panic!("nothing failed"),
        }
    }
    assert_eq!(writes, 2);
    assert!(history.has_unread());
    assert_eq!(history.unread_games().len(), 1);
    assert_eq!(history.rooky_game_entries(), history.unread_games());
    assert_eq!(history.unread_games()[0].note.content, PGN);
}

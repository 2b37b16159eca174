use bunker::live_game::AnnotatedGameHistoryAction;
use bunker::note::{GameEntry, GameOrigin, Note};
use bunker::share::{
    import_game, import_signed, import_summary, imported, message_of, persist_report, save_game,
    save_signed, send_game, send_wrapped, share_game, share_signed, Command, Notice,
};
use nostro2_signer::keypair::NostrKeypair;

const ALICE: &str = "a992011980303ea8c43f66087634283026e7796e7fcea8b61710239e19ee28c8";
const ALICE_PUB: &str = "689403d3808274889e371cfe53c2d78eb05743a964cc60d3b2e55824e8fe740a";
const BOB: &str = "1c5e0d1b7a6f4a3d9e8c7b6a5f4e3d2c1b0a99887766554433221100ffeeddcc";
const PGN: &str = "[Event \"Casual Game\"]\n\n1. e4 e5 2. Nf3 Nc6 1-0\n";

fn game() -> Note {
    Note {
        pubkey: String::new(),
        created_at: 1_704_153_600,
        kind: 1,
        tags: vec![],
        content: PGN.to_string(),
        id: None,
        sig: None,
    }
}

fn signed(id: Option<&str>) -> Note {
    Note {
        pubkey: ALICE_PUB.to_string(),
        id: id.map(str::to_string),
        sig: Some("00".repeat(64)),
        ..game()
    }
}

fn to_outside(n: &Note) -> nostro2::NostrNote {
    let mut out = nostro2::NostrNote {
        pubkey: n.pubkey.clone(),
        created_at: n.created_at,
        kind: n.kind,
        content: n.content.clone(),
        id: n.id.clone(),
        sig: n.sig.clone(),
        ..Default::default()
    };
    out.tags.0 = n.tags.clone();
    out
}

fn annotated(note: Note) -> GameEntry {
    GameEntry::from_note(note, GameOrigin::Annotated)
}

#[test]
fn a_signed_game_is_added_stored_published_and_announced() {
    let note = signed(Some("abc"));
    assert_eq!(
        share_signed(Some(note.clone())),
        vec![
            Command::Dispatch(AnnotatedGameHistoryAction::AddGame(annotated(note.clone()))),
            Command::Persist(annotated(note.clone())),
            Command::Publish(note),
            Command::Notify(Notice::GameShared),
        ]
    );
}

#[test]
fn a_game_that_cannot_be_signed_is_not_shared() {
    assert_eq!(share_signed(None), vec![Command::Notify(Notice::SignFailed)]);
    assert_eq!(share_game("not a key", &game()), vec![Command::Notify(Notice::SignFailed)]);
}

#[test]
fn sharing_signs_the_note_with_the_local_key() {
    let cmds = share_game(ALICE, &game());
    assert_eq!(cmds.len(), 4);
    let Command::Publish(note) = &cmds[2] else { panic!("no note published") };
    assert_eq!(note.pubkey, ALICE_PUB);
    assert_eq!(note.content, PGN);
    assert_eq!(note.created_at, 1_704_153_600);
    assert_eq!(note.kind, 1);
    assert_eq!(note.tags, game().tags);
    assert!(note.id.is_some());
    assert!(note.sig.is_some());
    assert!(to_outside(note).verify());
    assert!(*note != game());
    let Command::Persist(entry) = &cmds[1] else { panic!("no entry stored") };
    assert_eq!(Some(entry.id.clone()), note.id);
    assert_eq!(entry.origin, GameOrigin::Annotated);
    assert_eq!(&entry.note, note);
    // signing draws no random number
    assert_eq!(share_game(ALICE, &game()), cmds);
}

#[test]
fn a_direct_message_needs_a_recipient_a_signature_and_a_wrap() {
    let note = signed(Some("abc"));
    let wrap = signed(Some("wrap"));
    assert_eq!(
        send_wrapped(false, Some(note.clone()), Some(wrap.clone())),
        vec![Command::Notify(Notice::RecipientNotFound)]
    );
    assert_eq!(
        send_wrapped(true, None, Some(wrap.clone())),
        vec![Command::Notify(Notice::SignFailed)]
    );
    assert_eq!(send_wrapped(true, None, None), vec![Command::Notify(Notice::SignFailed)]);
    assert_eq!(
        send_wrapped(true, Some(note.clone()), None),
        vec![Command::Notify(Notice::DmFailed)]
    );
    assert_eq!(
        send_wrapped(true, Some(note.clone()), Some(wrap.clone())),
        vec![
            Command::Publish(wrap),
            Command::Dispatch(AnnotatedGameHistoryAction::AddGame(annotated(note))),
            Command::Notify(Notice::DmSent),
        ]
    );
}

#[test]
fn a_game_sent_by_direct_message_can_be_unwrapped_by_its_recipient() {
    let bob: NostrKeypair = BOB.parse().unwrap();
    let cmds = send_game(ALICE, &game(), Some(&bob.public_key()));
    assert_eq!(cmds.len(), 3);
    let Command::Publish(wrap) = &cmds[0] else { panic!("no wrap published") };
    assert_eq!(wrap.kind, 1059);
    assert_eq!(wrap.tags, vec![vec!["p".to_string(), bob.public_key()]]);
    assert!(wrap.id.is_some());
    assert!(wrap.sig.is_some());
    let rumor = bob.extract_rumor(&to_outside(wrap)).unwrap();
    assert_eq!(rumor.content, PGN);
    assert_eq!(rumor.kind, 14);
    let Command::Dispatch(AnnotatedGameHistoryAction::AddGame(entry)) = &cmds[1] else {
        panic!("no game added")
    };
    assert_eq!(entry.origin, GameOrigin::Annotated);
    assert!(to_outside(&entry.note).verify());
    assert_eq!(cmds[2], Command::Notify(Notice::DmSent));
}

#[test]
fn a_direct_message_fails_without_recipient_key_or_wrap() {
    assert_eq!(send_game(ALICE, &game(), None), vec![Command::Notify(Notice::RecipientNotFound)]);
    assert_eq!(
        send_game("not a key", &game(), Some(ALICE_PUB)),
        vec![Command::Notify(Notice::SignFailed)]
    );
    assert_eq!(
        send_game(ALICE, &game(), Some("not a public key")),
        vec![Command::Notify(Notice::DmFailed)]
    );
}

#[test]
fn saving_stores_adds_and_downloads_the_game() {
    let note = signed(Some("abc"));
    assert_eq!(
        save_signed(true, Some(note.clone()), PGN),
        vec![
            Command::Persist(annotated(note.clone())),
            Command::Dispatch(AnnotatedGameHistoryAction::AddGame(annotated(note))),
            Command::Download { file_name: "game-abc.pgn".to_string(), content: PGN.to_string() },
            Command::Notify(Notice::GameSaved),
        ]
    );
    let cmds = save_signed(true, Some(signed(None)), PGN);
    assert_eq!(
        cmds[2],
        Command::Download { file_name: "game-.pgn".to_string(), content: PGN.to_string() }
    );
}

#[test]
fn saving_needs_a_key_and_a_signature() {
    assert_eq!(save_signed(false, None, PGN), vec![Command::Notify(Notice::NoKeypair)]);
    assert_eq!(
        save_signed(false, Some(signed(Some("abc"))), PGN),
        vec![Command::Notify(Notice::NoKeypair)]
    );
    assert_eq!(save_signed(true, None, PGN), vec![Command::Notify(Notice::SignFailed)]);
    assert_eq!(save_game(&None, &game(), PGN), vec![Command::Notify(Notice::NoKeypair)]);
    assert_eq!(
        save_game(&Some("not a key".to_string()), &game(), PGN),
        vec![Command::Notify(Notice::SignFailed)]
    );
    let cmds = save_game(&Some(ALICE.to_string()), &game(), PGN);
    assert_eq!(cmds.len(), 4);
    let Command::Persist(entry) = &cmds[0] else { panic!("no entry stored") };
    assert_eq!(
        cmds[2],
        Command::Download { file_name: format!("game-{}.pgn", entry.id), content: PGN.to_string() }
    );
}

#[test]
fn a_refused_write_is_told_to_the_user() {
    assert_eq!(persist_report(true), None);
    assert_eq!(persist_report(false), Some(Notice::SaveFailed));
}

#[test]
fn imported_games_are_public_entries() {
    let note = signed(Some("abc"));
    assert_eq!(
        import_signed(Some(note.clone())),
        Some(GameEntry::from_note(note.clone(), GameOrigin::Public))
    );
    assert_eq!(import_signed(None), None);
    assert_eq!(import_game("not a key", &game()), None);
    let entry = import_game(ALICE, &game()).unwrap();
    assert_eq!(entry.origin, GameOrigin::Public);
    assert!(to_outside(&entry.note).verify());
    assert_eq!(
        imported(GameEntry::from_note(note.clone(), GameOrigin::Public), true),
        Some(AnnotatedGameHistoryAction::AddGame(GameEntry::from_note(note.clone(), GameOrigin::Public)))
    );
    assert_eq!(imported(GameEntry::from_note(note, GameOrigin::Public), false), None);
}

#[test]
fn an_import_ends_with_a_summary() {
    assert_eq!(import_summary(0), Notice::NoGamesFound);
    assert_eq!(import_summary(1), Notice::GamesSaved);
    assert_eq!(import_summary(usize::MAX), Notice::GamesSaved);
}

#[test]
fn each_notice_has_its_words() {
    let all = [
        (Notice::SignFailed, "Failed to sign note", false),
        (Notice::GameShared, "Game shared successfully", true),
        (Notice::SaveFailed, "Failed to save game", false),
        (Notice::RecipientNotFound, "Recipient not found", false),
        (Notice::DmFailed, "Failed to send DM", false),
        (Notice::DmSent, "DM sent successfully", true),
        (Notice::NoKeypair, "No Nostr keypair found", false),
        (Notice::GameSaved, "Game saved successfully", true),
        (Notice::FetchFailed, "Failed to fetch games. Please check your query parameters.", false),
        (Notice::NoGamesFound, "No games found for the given query.", false),
        (Notice::GamesSaved, "Games saved successfully!", true),
        (Notice::RelayExists, "Relay already exists", false),
        (Notice::RelayAdded, "Relay added successfully", true),
        (Notice::RelayRemoved, "Relay removed successfully", true),
        (Notice::DetailsUpdated, "Game details updated", true),
    ];
    for (notice, words, success) in all {
        assert_eq!(notice.message(), words);
        assert_eq!(notice.is_success(), success);
    }
}

#[test]
fn the_message_of_a_game_is_its_content() {
    assert_eq!(message_of(&game()), PGN);
    let mut tagged = game();
    tagged.tags = vec![vec!["t".to_string(), "chess".to_string()]];
    tagged.content = String::new();
    assert_eq!(message_of(&tagged), "");
}

#[test]
fn signing_keeps_the_tags_of_a_game() {
    let mut tagged = game();
    tagged.tags = vec![vec!["t".to_string(), "chess".to_string()]];
    tagged.kind = 64;
    let entry = import_game(ALICE, &tagged).unwrap();
    assert_eq!(entry.note.tags, tagged.tags);
    assert_eq!(entry.note.kind, 64);
    assert_eq!(entry.note.content, tagged.content);
    assert_eq!(entry.note.created_at, tagged.created_at);
    assert!(to_outside(&entry.note).verify());
}

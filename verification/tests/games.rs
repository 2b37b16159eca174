use bunker::games::{
    bytes_less, cut_page, listing, next_is_disabled, next_page, previous_is_disabled,
    previous_page, row_less, row_passes, rows_of, text_less, total_pages, visible_games, GameRow,
    SortColumn, SortGamesBy, PAGE_SIZE,
};
use bunker::note::{GameEntry, GameOrigin, Note};

fn row(origin: GameOrigin, date: i32, white: &str) -> GameRow {
    GameRow {
        origin,
        date,
        opening: String::new(),
        white: white.to_string(),
        black: String::new(),
        outcome: "1-0".to_string(),
        event: "Casual Game".to_string(),
    }
}

fn rows() -> Vec<GameRow> {
    vec![
        row(GameOrigin::Annotated, 10, "Dora"),   // 0
        row(GameOrigin::Received, 30, "Ann"),     // 1
        row(GameOrigin::Public, 20, "Carl"),      // 2
        row(GameOrigin::Annotated, 30, "Ben"),    // 3
        row(GameOrigin::Received, 10, "Ann"),     // 4
        row(GameOrigin::Annotated, 20, "Émile"),  // 5
        row(GameOrigin::Public, 40, ""),          // 6
    ]
}

#[test]
fn pages_hold_five_games() {
    assert_eq!(PAGE_SIZE, 5);
    assert_eq!(total_pages(0), 0);
    assert_eq!(total_pages(1), 1);
    assert_eq!(total_pages(5), 1);
    assert_eq!(total_pages(6), 2);
    assert_eq!(total_pages(10), 2);
    assert_eq!(total_pages(11), 3);
    assert_eq!(total_pages(usize::MAX), usize::MAX / 5);
    assert_eq!(total_pages(usize::MAX - 1), usize::MAX / 5);
    assert_eq!(total_pages(usize::MAX - 5), usize::MAX / 5 - 1);
}

#[test]
fn the_page_buttons_stop_at_both_ends() {
    assert_eq!(previous_page(0), None);
    assert_eq!(previous_page(3), Some(2));
    assert_eq!(next_page(0, 2), Some(1));
    assert_eq!(next_page(1, 2), Some(2));
    assert_eq!(next_page(2, 2), None);
    assert_eq!(next_page(0, 0), None);
    assert!(previous_is_disabled(0));
    assert!(!previous_is_disabled(1));
    assert!(next_is_disabled(2, 2));
    assert!(!next_is_disabled(1, 2));
    assert!(!next_is_disabled(3, 2));
}

#[test]
fn a_click_on_the_ordering_column_turns_it_round() {
    assert_eq!(SortGamesBy::initial(), SortGamesBy::Date(true));
    assert_eq!(SortGamesBy::Date(true).toggled(SortColumn::Date), SortGamesBy::Date(false));
    assert_eq!(SortGamesBy::Date(false).toggled(SortColumn::Date), SortGamesBy::Date(true));
    assert_eq!(SortGamesBy::Date(false).toggled(SortColumn::White), SortGamesBy::White(true));
    assert_eq!(SortGamesBy::White(true).toggled(SortColumn::Event), SortGamesBy::Event(true));
    assert_eq!(SortGamesBy::Event(true).toggled(SortColumn::Event), SortGamesBy::Event(false));
    assert_eq!(SortGamesBy::Opening(false).column(), SortColumn::Opening);
    assert!(SortGamesBy::Outcome(true).reversed());
    assert!(!SortGamesBy::Black(false).reversed());
}

#[test]
fn texts_are_ordered_as_strings_are() {
    let texts = ["", "a", "A", "ab", "abc", "b", "Ann", "Émile", "Zoë", "z", "é", "日本", "\u{10348}"];
    for a in texts {
        for b in texts {
            assert_eq!(text_less(a, b), a < b, "{a:?} {b:?}");
            assert_eq!(bytes_less(a.as_bytes(), b.as_bytes()), a.as_bytes() < b.as_bytes());
        }
    }
    assert!(bytes_less(&[1, 2], &[1, 3]));
    assert!(bytes_less(&[1, 2], &[1, 2, 0]));
    assert!(!bytes_less(&[1, 2], &[1, 2]));
    assert!(!bytes_less(&[2], &[1, 9]));
}

#[test]
fn rows_compare_by_the_ordering_column() {
    let (a, b) = (row(GameOrigin::Public, 1, "Ann"), row(GameOrigin::Public, 2, "Ben"));
    assert!(row_less(&a, &b, SortGamesBy::Date(false)));
    assert!(!row_less(&a, &b, SortGamesBy::Date(true)));
    assert!(row_less(&b, &a, SortGamesBy::Date(true)));
    assert!(row_less(&a, &b, SortGamesBy::White(false)));
    assert!(row_less(&b, &a, SortGamesBy::White(true)));
    assert!(!row_less(&a, &b, SortGamesBy::Outcome(false)));
    assert!(!row_less(&b, &a, SortGamesBy::Outcome(false)));
    assert!(!row_less(&a, &a, SortGamesBy::Date(false)));
}

#[test]
fn the_filter_lets_one_origin_pass() {
    let r = row(GameOrigin::Received, 1, "Ann");
    assert!(row_passes(&r, None));
    assert!(row_passes(&r, Some(GameOrigin::Received)));
    assert!(!row_passes(&r, Some(GameOrigin::Public)));
}

#[test]
fn the_listing_is_ordered_and_keeps_ties_in_arrival_order() {
    assert_eq!(listing(&rows(), None, SortGamesBy::Date(false)), vec![0, 4, 2, 5, 1, 3, 6]);
    assert_eq!(listing(&rows(), None, SortGamesBy::Date(true)), vec![6, 1, 3, 2, 5, 0, 4]);
    assert_eq!(listing(&rows(), None, SortGamesBy::White(false)), vec![6, 1, 4, 3, 2, 0, 5]);
    assert_eq!(listing(&rows(), None, SortGamesBy::White(true)), vec![5, 0, 2, 3, 1, 4, 6]);
    assert_eq!(listing(&rows(), None, SortGamesBy::Outcome(true)), vec![0, 1, 2, 3, 4, 5, 6]);
    assert_eq!(listing(&vec![], None, SortGamesBy::Date(true)), Vec::<usize>::new());
}

#[test]
fn the_listing_agrees_with_a_stable_sort() {
    let rows = rows();
    for sort in [
        SortGamesBy::Date(false), SortGamesBy::Date(true), SortGamesBy::White(false),
        SortGamesBy::White(true), SortGamesBy::Event(false), SortGamesBy::Opening(true),
    ] {
        let mut expected: Vec<usize> = (0..rows.len()).collect();
        expected.sort_by(|&a, &b| {
            let (a, b) = if sort.reversed() { (&rows[b], &rows[a]) } else { (&rows[a], &rows[b]) };
            match sort.column() {
                SortColumn::Date => a.date.cmp(&b.date),
                SortColumn::Opening => a.opening.cmp(&b.opening),
                SortColumn::White => a.white.cmp(&b.white),
                SortColumn::Black => a.black.cmp(&b.black),
                SortColumn::Outcome => a.outcome.cmp(&b.outcome),
                SortColumn::Event => a.event.cmp(&b.event),
            }
        });
        assert_eq!(listing(&rows, None, sort), expected, "{sort:?}");
    }
}

#[test]
fn the_listing_holds_only_what_passes_the_filter() {
    assert_eq!(
        listing(&rows(), Some(GameOrigin::Annotated), SortGamesBy::Date(true)),
        vec![3, 5, 0]
    );
    assert_eq!(listing(&rows(), Some(GameOrigin::Received), SortGamesBy::Date(false)), vec![4, 1]);
    assert_eq!(
        listing(&rows(), Some(GameOrigin::Unknown), SortGamesBy::Date(false)),
        Vec::<usize>::new()
    );
}

#[test]
fn a_page_is_cut_out_of_the_listing() {
    let order: Vec<usize> = vec![6, 1, 3, 2, 5, 0, 4];
    assert_eq!(cut_page(&order, 7, 0), vec![6, 1, 3, 2, 5]);
    assert_eq!(cut_page(&order, 7, 1), vec![0, 4]);
    assert_eq!(cut_page(&order, 7, 2), Vec::<usize>::new());
    assert_eq!(cut_page(&order, 7, usize::MAX), Vec::<usize>::new());
    // a filtered listing is shorter than the number of all games
    assert_eq!(cut_page(&vec![3, 5, 0], 7, 0), vec![3, 5, 0]);
    assert_eq!(cut_page(&vec![3, 5, 0], 7, 1), Vec::<usize>::new());
    assert_eq!(cut_page(&vec![], 0, 0), Vec::<usize>::new());
    let ten: Vec<usize> = (0..10).collect();
    assert_eq!(cut_page(&ten, 10, 1), vec![5, 6, 7, 8, 9]);
    assert_eq!(cut_page(&ten, 10, 2), Vec::<usize>::new());
}

#[test]
fn the_visible_games_are_a_page_of_the_listing() {
    assert_eq!(visible_games(&rows(), None, SortGamesBy::Date(true), 0), vec![6, 1, 3, 2, 5]);
    assert_eq!(visible_games(&rows(), None, SortGamesBy::Date(true), 1), vec![0, 4]);
    assert_eq!(visible_games(&rows(), None, SortGamesBy::Date(true), 2), Vec::<usize>::new());
    assert_eq!(
        visible_games(&rows(), Some(GameOrigin::Public), SortGamesBy::White(false), 0),
        vec![6, 2]
    );
    assert_eq!(
        visible_games(&rows(), Some(GameOrigin::Public), SortGamesBy::White(false), 1),
        Vec::<usize>::new()
    );
}

#[test]
fn rows_are_read_from_the_entries_contents() {
    let pgn = "[Event \"Club Night\"]\n[Site \"Riga LAT\"]\n[Round \"2\"]\n[Date \"2023.10.15\"]\n[White \"Ann\"]\n[Black \"Ben\"]\n[Result \"0-1\"]\n\n1. e4 c5 2. Nf3 d6 0-1\n";
    let note = |content: &str| Note {
        pubkey: String::new(),
        created_at: 0,
        kind: 1,
        tags: vec![],
        content: content.to_string(),
        id: Some("abc".to_string()),
        sig: None,
    };
    let entries = vec![
        GameEntry::from_note(note(pgn), GameOrigin::Received),
        GameEntry::from_note(note("no game at all"), GameOrigin::Public),
    ];
    let rows = rows_of(&entries);
    assert_eq!(rows.len(), 2);
    assert_eq!(rows[0].origin, GameOrigin::Received);
    assert_eq!(rows[0].white, "Ann");
    assert_eq!(rows[0].black, "Ben");
    assert_eq!(rows[0].outcome, "0-1");
    assert_eq!(rows[0].event, "Club Night");
    let game: rooky_core::RookyGame = pgn.parse().unwrap();
    assert_eq!(rows[0].opening, game.opening().unwrap().name);
    assert!(!rows[0].opening.is_empty());
    // 2023-10-15 is day 738,808 of the common era
    assert_eq!(rows[0].date, 738_808);
    assert_eq!(rows[1].origin, GameOrigin::Public);
    assert_eq!(rows[1].white, "");
    assert_eq!(rows[1].opening, "");
}

#[test]
fn a_row_is_built_from_what_was_read() {
    let read = (738_808, "Ann".to_string(), "Ben".to_string(), "0-1".to_string(), "Club Night".to_string());
    assert_eq!(
        GameRow::new(GameOrigin::Received, read.clone(), Some("Sicilian Defense".to_string())),
        GameRow {
            origin: GameOrigin::Received,
            date: 738_808,
            opening: "Sicilian Defense".to_string(),
            white: "Ann".to_string(),
            black: "Ben".to_string(),
            outcome: "0-1".to_string(),
            event: "Club Night".to_string(),
        }
    );
    assert_eq!(GameRow::new(GameOrigin::Public, read, None).opening, "");
}

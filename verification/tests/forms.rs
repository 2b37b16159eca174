use bunker::forms::{
    event_details, parse_count, parse_month, parse_number, seed_phrase, SEED_WORDS,
};

fn some(words: &[&str]) -> Vec<Option<String>> {
    words.iter().map(|w| Some(w.to_string())).collect()
}

#[test]
fn the_words_of_a_seed_phrase_are_joined_by_blanks() {
    assert_eq!(seed_phrase(&some(&["abandon", "ability", "able"])), Some("abandon ability able".to_string()));
    assert_eq!(seed_phrase(&some(&["one"])), Some("one".to_string()));
    assert_eq!(seed_phrase(&some(&[])), Some(String::new()));
    assert_eq!(seed_phrase(&some(&["", "x", ""])), Some(" x ".to_string()));
    let words: Vec<String> = (1..=SEED_WORDS).map(|i| format!("w{i}")).collect();
    let fields: Vec<Option<String>> = words.iter().cloned().map(Some).collect();
    assert_eq!(seed_phrase(&fields), Some(words.join(" ")));
}

#[test]
fn a_missing_word_field_gives_no_phrase() {
    let mut fields = some(&["a", "b", "c"]);
    fields[1] = None;
    assert_eq!(seed_phrase(&fields), None);
    assert_eq!(seed_phrase(&vec![None]), None);
}

#[test]
fn numbers_are_read_as_the_standard_library_reads_them() {
    for text in [
        "0", "7", "42", "007", "+5", "+", "", "-1", "-0", "4294967295", "4294967296",
        "99999999999999999999", "12a", "a12", " 12", "12 ", "1_000", "++1", "+-1", "٣", "1.5",
        "0000000000000000000001", "+4294967295", "+4294967296",
    ] {
        assert_eq!(parse_number(text.as_bytes()), text.parse::<u32>().ok(), "{text:?}");
        assert_eq!(parse_count(text), text.parse::<u32>().unwrap_or_default(), "{text:?}");
    }
}

#[test]
fn exact_numbers() {
    assert_eq!(parse_number(b"2024"), Some(2024));
    assert_eq!(parse_number(b"+12"), Some(12));
    assert_eq!(parse_number(b"4294967295"), Some(u32::MAX));
    assert_eq!(parse_number(b"4294967296"), None);
    assert_eq!(parse_number(b""), None);
    assert_eq!(parse_count("25"), 25);
    assert_eq!(parse_count("many"), 0);
}

#[test]
fn a_month_field_gives_year_and_month() {
    assert_eq!(parse_month("2024-03"), (2024, 3));
    assert_eq!(parse_month("1999-12"), (1999, 12));
    assert_eq!(parse_month("2024-3"), (2024, 3));
}

#[test]
fn what_is_no_number_counts_as_zero() {
    assert_eq!(parse_month(""), (0, 0));
    assert_eq!(parse_month("2024"), (0, 0));
    assert_eq!(parse_month("-"), (0, 0));
    assert_eq!(parse_month("2024-"), (2024, 0));
    assert_eq!(parse_month("-03"), (0, 3));
    assert_eq!(parse_month("year-month"), (0, 0));
    assert_eq!(parse_month("2024-03-15"), (2024, 0));
    assert_eq!(parse_month("2024--3"), (2024, 0));
    assert_eq!(parse_month("99999999999-01"), (0, 1));
}

#[test]
fn months_are_read_as_the_standard_library_reads_them() {
    for text in ["2024-03", "", "-", "a-b", "1-2-3", "+1-+2", "2024", " 2024-03", "٣-٤", "12-é"] {
        let (year, month) = text.split_once('-').unwrap_or_default();
        let expected =
            (year.parse::<u32>().unwrap_or_default(), month.parse::<u32>().unwrap_or_default());
        assert_eq!(parse_month(text), expected, "{text:?}");
    }
}

#[test]
fn event_details_are_set_only_with_an_event() {
    assert_eq!(
        event_details("Club Championship", "Riga LAT", "3"),
        Some(("Club Championship".to_string(), "Riga LAT".to_string(), "3".to_string()))
    );
    assert_eq!(
        event_details("Open", "", ""),
        Some(("Open".to_string(), String::new(), String::new()))
    );
    assert_eq!(event_details("", "Riga LAT", "3"), None);
}

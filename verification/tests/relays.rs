use bunker::relays::{
    add_is_disabled, add_relay, default_relays, relay_badge, relay_to_remove, relays_to_use,
    AddRelay, RelayBadge, UserRelay,
};
use bunker::sync::{ReadyState, RelayHealth};
use bunker::text::is_space;

fn health(urls: &[&str]) -> RelayHealth {
    RelayHealth { relays: urls.iter().map(|u| (u.to_string(), ReadyState::Open)).collect() }
}

fn relay(url: &str) -> UserRelay {
    UserRelay { url: url.to_string(), read: true, write: true }
}

#[test]
fn the_default_relays_are_the_four_known_ones() {
    assert_eq!(
        default_relays(),
        vec![
            relay("wss://purplepag.es"),
            relay("wss://relay.unkownk.com"),
            relay("wss://nos.lol"),
            relay("wss://relay.illuminodes.com"),
        ]
    );
}

#[test]
fn stored_relays_are_used_unless_there_are_none() {
    let stored = vec![UserRelay { url: "wss://mine.example".to_string(), read: true, write: false }];
    assert_eq!(relays_to_use(Some(stored.clone())), stored);
    assert_eq!(relays_to_use(Some(vec![])), default_relays());
    assert_eq!(relays_to_use(None), default_relays());
}

#[test]
fn a_blank_input_adds_nothing() {
    assert_eq!(add_relay(&health(&[]), ""), AddRelay::Ignored);
    assert_eq!(add_relay(&health(&[]), "   \t\n"), AddRelay::Ignored);
    assert!(add_is_disabled(""));
    assert!(add_is_disabled("  "));
    assert!(!add_is_disabled(" x "));
}

#[test]
fn a_bare_host_gets_the_scheme() {
    assert_eq!(
        add_relay(&health(&[]), "relay.example.com"),
        AddRelay::Added(relay("wss://relay.example.com"))
    );
    assert_eq!(
        add_relay(&health(&[]), "  relay.example.com  "),
        AddRelay::Added(relay("wss://relay.example.com"))
    );
}

#[test]
fn a_full_url_is_kept_and_trimmed() {
    assert_eq!(
        add_relay(&health(&[]), "wss://relay.example.com"),
        AddRelay::Added(relay("wss://relay.example.com"))
    );
    assert_eq!(
        add_relay(&health(&[]), "wss://relay.example.com  "),
        AddRelay::Added(relay("wss://relay.example.com"))
    );
    // a leading blank hides the scheme, so it is put in front once more
    assert_eq!(
        add_relay(&health(&[]), " wss://relay.example.com"),
        AddRelay::Added(relay("wss://wss://relay.example.com"))
    );
    assert_eq!(
        add_relay(&health(&[]), "ws://relay.example.com"),
        AddRelay::Added(relay("wss://ws://relay.example.com"))
    );
}

#[test]
fn a_configured_relay_is_not_added_twice() {
    let known = health(&["wss://nos.lol", "wss://purplepag.es"]);
    assert_eq!(add_relay(&known, "wss://nos.lol"), AddRelay::AlreadyExists);
    assert_eq!(add_relay(&known, "nos.lol"), AddRelay::AlreadyExists);
    assert_eq!(add_relay(&known, " purplepag.es "), AddRelay::AlreadyExists);
    assert_eq!(add_relay(&known, "nos.lo"), AddRelay::Added(relay("wss://nos.lo")));
}

#[test]
fn a_relay_is_removed_by_its_url() {
    assert_eq!(relay_to_remove("wss://nos.lol"), relay("wss://nos.lol"));
    assert_eq!(UserRelay::two_way("wss://nos.lol"), relay("wss://nos.lol"));
    assert_eq!(relay("wss://nos.lol").clone(), relay("wss://nos.lol"));
}

#[test]
fn each_state_has_its_badge() {
    assert_eq!(
        relay_badge(ReadyState::Connecting),
        RelayBadge { color: "text-yellow-500", label_key: "relay_status_connecting", icon: "\u{23f3}" }
    );
    assert_eq!(
        relay_badge(ReadyState::Open),
        RelayBadge { color: "text-green-500", label_key: "relay_status_connected", icon: "\u{2705}" }
    );
    assert_eq!(
        relay_badge(ReadyState::Closing),
        RelayBadge { color: "text-orange-500", label_key: "relay_status_closing", icon: "\u{23f3}" }
    );
    assert_eq!(
        relay_badge(ReadyState::Closed),
        RelayBadge { color: "text-red-500", label_key: "relay_status_closed", icon: "\u{274c}" }
    );
}

#[test]
fn white_space_is_what_the_standard_library_trims() {
    for code in 0..=0x10ffff_u32 {
        if let Some(c) = char::from_u32(code) {
            assert_eq!(is_space(c), c.is_whitespace(), "U+{code:04X}");
        }
    }
}

#[test]
fn every_kind_of_white_space_is_trimmed_from_an_input() {
    for blank in ["\u{a0}", "\u{3000}", "\u{2003}\u{85}", "\r\n", "\u{1680}\u{205f}\u{202f}\u{2028}\u{2029}"] {
        assert_eq!(add_relay(&health(&[]), blank), AddRelay::Ignored, "{blank:?}");
        assert!(add_is_disabled(blank));
        let padded = format!("{blank}nos.lol{blank}");
        assert_eq!(add_relay(&health(&[]), &padded), AddRelay::Added(relay("wss://nos.lol")));
    }
    // a zero-width space is no white space
    assert_eq!(
        add_relay(&health(&[]), "\u{200b}"),
        AddRelay::Added(relay("wss://\u{200b}"))
    );
}

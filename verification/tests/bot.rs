use cndk8::bot::{help_message, is_owner, link_bot_plan_message, plan_message, IncomingKind, Reaction, State};
use cndk8::number::{decimal_string, parse_u64};
use cndk8::text::{trim, white_space};

#[test]
fn owner_is_the_maintainer() {
    assert!(is_owner(Some(51739298), 51739298));
    assert!(!is_owner(Some(1), 51739298));
    assert!(!is_owner(None, 0));
}

#[test]
fn help_tells_the_user_id() {
    assert_eq!(help_message(51739298), "help has been invoked, your user id is 51739298");
    assert_eq!(help_message(0), "help has been invoked, your user id is 0");
}

#[test]
fn default_state_is_start() {
    assert_eq!(State::default(), State::Start);
}

#[test]
fn plans() {
    let p = plan_message(Some(7), 7, IncomingKind::Text);
    assert_eq!(p.reaction, Reaction::HandleText);
    assert!(p.delete_ack);
    let p = plan_message(Some(7), 7, IncomingKind::Photo);
    assert_eq!(p.reaction, Reaction::Reply("Media::Kind Type not implemented".to_string()));
    let p = plan_message(Some(7), 7, IncomingKind::NotCommon);
    assert_eq!(p.reaction, Reaction::Reply("MessageKind not implemented".to_string()));
    let p = plan_message(Some(8), 7, IncomingKind::Text);
    assert_eq!(p.reaction, Reaction::Ignore);
    assert!(!p.delete_ack);
    let p = plan_message(None, 7, IncomingKind::Text);
    assert_eq!(p.reaction, Reaction::Ignore);
}

#[test]
fn link_bot_plans() {
    let p = link_bot_plan_message(Some(7), 7, IncomingKind::Photo);
    assert_eq!(p.reaction, Reaction::HandlePhoto);
    assert!(!p.delete_ack);
    let p = link_bot_plan_message(Some(7), 7, IncomingKind::OtherMedia);
    assert_eq!(p.reaction, Reaction::Reply("Media::Kind Type not implemented".to_string()));
    let p = link_bot_plan_message(Some(7), 8, IncomingKind::Photo);
    assert_eq!(p.reaction, Reaction::Ignore);
}

#[test]
fn numbers() {
    assert_eq!(parse_u64("51739298"), Some(51739298));
    assert_eq!(parse_u64("+12"), Some(12));
    assert_eq!(parse_u64("007"), Some(7));
    assert_eq!(parse_u64("18446744073709551615"), Some(u64::MAX));
    assert_eq!(parse_u64("18446744073709551616"), None);
    assert_eq!(parse_u64(""), None);
    assert_eq!(parse_u64("+"), None);
    assert_eq!(parse_u64("-1"), None);
    assert_eq!(parse_u64("12a"), None);
    assert_eq!(parse_u64(" 1"), None);
    assert_eq!(parse_u64("١٢"), None);
    for s in ["0", "1", "42", "+99", "18446744073709551615", "x", "++1", "99999999999999999999"] {
        assert_eq!(parse_u64(s), s.parse::<u64>().ok(), "{}", s);
    }
}

#[test]
fn decimal_roundtrip() {
    for n in [0u64, 1, 9, 10, 99, 100, 51739298, u64::MAX] {
        let s = decimal_string(n);
        assert_eq!(s, n.to_string());
        assert_eq!(parse_u64(&s), Some(n));
    }
}

#[test]
fn trimming() {
    assert_eq!(trim("  a b \t\n"), "a b");
    assert_eq!(trim("\u{3000}x\u{85}"), "x");
    assert_eq!(trim("   "), "");
    assert_eq!(trim(""), "");
    assert_eq!(trim(&trim(" \u{a0}y ")), trim(" \u{a0}y "));
    for c in ['\t', ' ', '\u{2028}', 'a', '\u{200b}', '\u{1680}'] {
        assert_eq!(white_space(c), c.is_whitespace(), "{:?}", c);
    }
}

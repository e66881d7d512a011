//! Parsing of the requested playback action.

use restreamer::play_params::{is_lang_supported, parse_play_action, PlayAction};

#[test]
fn test_missing_value_defaults_to_passthrough() {
    assert_eq!(parse_play_action(None).unwrap(), Some(PlayAction::Passthrough));
}

#[test]
fn test_known_actions_parse_case_insensitively() {
    // mixed case exercises the real lowercase mapping
    assert_eq!(
        parse_play_action(Some("PASSTHROUGH".to_owned())).unwrap(),
        Some(PlayAction::Passthrough)
    );
    assert_eq!(
        parse_play_action(Some("Silence".to_owned())).unwrap(),
        Some(PlayAction::Silence)
    );
}

#[test]
fn test_supported_language_becomes_lang_action() {
    assert_eq!(
        parse_play_action(Some("EN".to_owned())).unwrap(),
        Some(PlayAction::Lang("en".to_owned()))
    );
    assert_eq!(
        parse_play_action(Some("nl".to_owned())).unwrap(),
        Some(PlayAction::Lang("nl".to_owned()))
    );
}

#[test]
fn test_unsupported_value_is_rejected() {
    let err = parse_play_action(Some("DE".to_owned())).unwrap_err();
    assert_eq!(err.received, "de");
}

#[test]
fn test_language_whitelist() {
    assert!(is_lang_supported("en"));
    assert!(is_lang_supported("nl"));
    assert!(is_lang_supported("fr"));
    assert!(!is_lang_supported("de"));
    assert!(!is_lang_supported("EN"));
    assert!(!is_lang_supported(""));
}

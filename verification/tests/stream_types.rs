use rust_caster::command::{parse_stream_type, AppRef};
use rust_caster::status::StreamType;

#[test]
fn buffered_keyword_resolves() {
    assert_eq!(parse_stream_type("buffered"), Some(StreamType::Buffered));
}

#[test]
fn live_keyword_resolves() {
    assert_eq!(parse_stream_type("live"), Some(StreamType::Live));
}

#[test]
fn none_keyword_resolves() {
    assert_eq!(parse_stream_type("none"), Some(StreamType::Unknown));
}

#[test]
fn unknown_literal_is_rejected() {
    assert_eq!(parse_stream_type("unknown"), None);
    assert_eq!(parse_stream_type("BUFFERED"), None);
    assert_eq!(parse_stream_type(""), None);
    assert_eq!(parse_stream_type("buffered "), None);
}

#[test]
fn keywords_map_bijectively() {
    let keywords = ["buffered", "live", "none"];
    let mut seen: Vec<StreamType> = Vec::new();
    for k in keywords {
        let t = parse_stream_type(k).expect("keyword must resolve");
        assert!(!seen.contains(&t), "two keywords resolved to one mode");
        seen.push(t);
    }
    assert_eq!(seen.len(), 3);
}

#[test]
fn app_ref_short_names_resolve() {
    assert_eq!(AppRef::parse("default"), AppRef::DefaultMediaReceiver);
    assert_eq!(AppRef::parse("CC1AD845"), AppRef::DefaultMediaReceiver);
    assert_eq!(AppRef::parse("backdrop"), AppRef::Backdrop);
    assert_eq!(AppRef::parse("E8C28D3C"), AppRef::Backdrop);
    assert_eq!(AppRef::parse("youtube"), AppRef::YouTube);
    assert_eq!(AppRef::parse("233637DE"), AppRef::YouTube);
}

#[test]
fn app_ref_other_ids_are_custom() {
    assert_eq!(
        AppRef::parse("ABCD1234"),
        AppRef::Custom(String::from("ABCD1234"))
    );
    assert_eq!(AppRef::parse("Default"), AppRef::Custom(String::from("Default")));
}

#[test]
fn app_ref_id_strings() {
    assert_eq!(AppRef::DefaultMediaReceiver.id_string(), "CC1AD845");
    assert_eq!(AppRef::Backdrop.id_string(), "E8C28D3C");
    assert_eq!(AppRef::YouTube.id_string(), "233637DE");
    assert_eq!(AppRef::Custom(String::from("X1")).id_string(), "X1");
}

#[test]
fn app_ref_matches_reported_ids() {
    let default_ref = AppRef::parse("default");
    assert!(default_ref.matches_app_id("CC1AD845"));
    assert!(default_ref.matches_app_id("default"));
    assert!(!default_ref.matches_app_id("233637DE"));
    let custom = AppRef::parse("MYAPP");
    assert!(custom.matches_app_id("MYAPP"));
    assert!(!custom.matches_app_id("OTHER"));
}

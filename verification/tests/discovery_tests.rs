use rust_caster::discovery::{
    extract_addresses, find_device, parse_index, parse_yes_no, resolve_address_source,
    resolve_yes_no, select_candidate, DiscoveryError,
};

fn strings(v: &[&str]) -> Vec<String> {
    v.iter().map(|s| String::from(*s)).collect()
}

#[test]
fn one_pair_resolves_without_prompt() {
    let text = "= eth0 IPv4 Chromecast-Living-Room _googlecast._tcp local\n   address = [192.168.1.5]\n";
    let r = find_device(text, &strings(&[]));
    assert_eq!(r, Ok(String::from("192.168.1.5")));
}

#[test]
fn zero_pairs_fails_with_device_not_found() {
    let text = "= eth0 IPv4 SomePrinter _ipp._tcp local\n   address = [10.0.0.9]\n";
    let r = find_device(text, &strings(&["0"]));
    assert_eq!(r, Err(DiscoveryError::DeviceNotFound));
}

#[test]
fn two_pairs_manual_selection_of_index_one() {
    let text = "= Chromecast-A at [192.168.1.5]\n= Chromecast-B at [192.168.1.6]\n";
    let r = find_device(text, &strings(&["1"]));
    assert_eq!(r, Ok(String::from("192.168.1.6")));
}

#[test]
fn out_of_range_selection_reprompts() {
    let text = "= Chromecast-A at [192.168.1.5]\n= Chromecast-B at [192.168.1.6]\n";
    let r = find_device(text, &strings(&["7", "not a number", "1"]));
    assert_eq!(r, Ok(String::from("192.168.1.6")));
}

#[test]
fn only_invalid_selections_fail() {
    let text = "= Chromecast-A at [192.168.1.5]\n= Chromecast-B at [192.168.1.6]\n";
    let r = find_device(text, &strings(&["2", "-1", "x"]));
    assert_eq!(r, Err(DiscoveryError::InvalidSelection));
}

#[test]
fn addresses_are_collected_in_encounter_order() {
    let text = "Chromecast-A 10.0.0.1 noise Chromecast-B 10.0.0.2";
    let got = extract_addresses(text);
    assert_eq!(got, strings(&["10.0.0.1", "10.0.0.2"]));
}

#[test]
fn duplicate_addresses_are_kept() {
    let text = "Chromecast-A 10.0.0.1 Chromecast-A 10.0.0.1";
    let got = extract_addresses(text);
    assert_eq!(got, strings(&["10.0.0.1", "10.0.0.1"]));
}

#[test]
fn address_may_follow_marker_across_lines() {
    let text = "= wlan0 IPv4 Chromecast-Kitchen\n   hostname = [abc.local]\n   address = [172.16.4.20]\n";
    let got = extract_addresses(text);
    assert_eq!(got, strings(&["172.16.4.20"]));
}

#[test]
fn address_without_marker_is_ignored() {
    let text = "address = [192.168.1.5] Chromecast-A";
    let got = extract_addresses(text);
    assert!(got.is_empty());
}

#[test]
fn digit_groups_take_at_most_three_digits() {
    let text = "Chromecast-A 1234.5.6.7";
    let got = extract_addresses(text);
    assert_eq!(got, strings(&["234.5.6.7"]));
}

#[test]
fn parse_index_accepts_trimmed_digits() {
    assert_eq!(parse_index(" 42 \n"), Some(42));
    assert_eq!(parse_index("0"), Some(0));
}

#[test]
fn parse_index_rejects_non_digits() {
    assert_eq!(parse_index(""), None);
    assert_eq!(parse_index("  "), None);
    assert_eq!(parse_index("4x"), None);
    assert_eq!(parse_index("-1"), None);
    assert_eq!(parse_index("1 2"), None);
}

#[test]
fn parse_index_rejects_overflow() {
    assert_eq!(parse_index("99999999999999999999999999"), None);
    assert_eq!(parse_index("18446744073709551615"), Some(usize::MAX));
}

#[test]
fn select_candidate_checks_range() {
    assert_eq!(select_candidate(3, "2"), Ok(2));
    assert_eq!(select_candidate(3, "3"), Err(DiscoveryError::InvalidSelection));
    assert_eq!(select_candidate(3, "no"), Err(DiscoveryError::InvalidSelection));
}

#[test]
fn yes_no_answers_resolve() {
    assert_eq!(parse_yes_no("y\n"), Some(true));
    assert_eq!(parse_yes_no("  n "), Some(false));
    assert_eq!(parse_yes_no("yes"), None);
    assert_eq!(parse_yes_no(""), None);
}

#[test]
fn yes_no_retry_consumes_lines_until_one_parses() {
    assert_eq!(resolve_yes_no(&strings(&["what", "", " y"])), Some(true));
    assert_eq!(resolve_yes_no(&strings(&["n", "y"])), Some(false));
    assert_eq!(resolve_yes_no(&strings(&["maybe", "ok"])), None);
    assert_eq!(resolve_yes_no(&strings(&[])), None);
}

#[test]
fn supplied_address_is_used_as_given() {
    let r = resolve_address_source(Some(String::from("192.168.1.9")), false);
    assert_eq!(r, Ok(Some(String::from("192.168.1.9"))));
}

#[test]
fn missing_address_without_consent_is_fatal() {
    assert_eq!(resolve_address_source(None, false), Err(DiscoveryError::MissingAddress));
    assert_eq!(resolve_address_source(None, true), Ok(None));
}

use rust_caster::numbers::{decimal_string, milli_string};
use rust_caster::render::{info_lines, Line, Tint};
use rust_caster::status::{AppDescriptor, ReceiverStatus, VolumeState};

fn line_text(line: &Line) -> String {
    let mut out = String::new();
    for span in &line.spans {
        out.push_str(&span.text);
    }
    out
}

fn texts(lines: &[Line]) -> Vec<String> {
    lines.iter().map(line_text).collect()
}

fn app(id: &str, name: &str, status: &str) -> AppDescriptor {
    AppDescriptor {
        app_id: String::from(id),
        display_name: String::from(name),
        status_text: String::from(status),
        session_id: String::from("session-1"),
        transport_id: String::from("transport-1"),
    }
}

#[test]
fn decimal_rendering() {
    assert_eq!(decimal_string(0), "0");
    assert_eq!(decimal_string(7), "7");
    assert_eq!(decimal_string(42), "42");
    assert_eq!(decimal_string(1000), "1000");
    assert_eq!(decimal_string(u64::MAX), "18446744073709551615");
}

#[test]
fn milli_rendering() {
    assert_eq!(milli_string(0), "0");
    assert_eq!(milli_string(1000), "1");
    assert_eq!(milli_string(1500), "1.5");
    assert_eq!(milli_string(650), "0.65");
    assert_eq!(milli_string(5), "0.005");
    assert_eq!(milli_string(1001), "1.001");
    assert_eq!(milli_string(1100), "1.1");
    assert_eq!(milli_string(2750), "2.75");
}

#[test]
fn info_report_lists_every_field_in_order() {
    let status = ReceiverStatus {
        applications: vec![
            app("CC1AD845", "Default Media Receiver", "Now Casting"),
            app("233637DE", "YouTube", "Idle"),
        ],
        volume: VolumeState { level: Some(650), muted: Some(true) },
    };
    let lines = info_lines(&status);
    assert_eq!(
        texts(&lines),
        vec![
            String::new(),
            String::from("Number of apps run: 2"),
            String::from("App#0: Default Media Receiver (CC1AD845) - Now Casting"),
            String::from("App#1: YouTube (233637DE) - Idle"),
            String::from("Volume level: 0.65"),
            String::from("Muted: true"),
            String::new(),
        ]
    );
}

#[test]
fn info_report_omits_unreported_volume_fields() {
    let status = ReceiverStatus {
        applications: vec![],
        volume: VolumeState { level: None, muted: None },
    };
    let lines = info_lines(&status);
    assert_eq!(
        texts(&lines),
        vec![String::new(), String::from("Number of apps run: 0")]
    );
}

#[test]
fn info_report_is_idempotent() {
    let status = ReceiverStatus {
        applications: vec![app("CC1AD845", "Default Media Receiver", "Ready")],
        volume: VolumeState { level: Some(1000), muted: Some(false) },
    };
    let first = info_lines(&status);
    let second = info_lines(&status);
    assert_eq!(first, second);
}

#[test]
fn info_report_labels_are_green_and_values_red() {
    let status = ReceiverStatus {
        applications: vec![],
        volume: VolumeState { level: Some(500), muted: None },
    };
    let lines = info_lines(&status);
    assert!(lines[0].spans.is_empty());
    assert_eq!(lines[1].spans[0].tint, Tint::Green);
    assert_eq!(lines[1].spans[0].text, "Number of apps run:");
    assert_eq!(lines[1].spans[2].tint, Tint::Red);
    assert_eq!(lines[1].spans[2].text, "0");
    assert_eq!(lines[2].spans[0].text, "Volume level:");
    assert_eq!(lines[2].spans[2].text, "0.5");
}

use rust_caster::command::{AppRef, Command, LoadRequest, MediaControl};
use rust_caster::engine::{
    Action, Engine, Frame, HeartbeatMsg, MediaMsg, ReceiverMsg,
};
use rust_caster::status::{
    AppDescriptor, MediaInfo, MediaStatusEntry, PlayerState, ReceiverStatus, StreamType,
    VolumeState,
};

fn app(id: &str, name: &str) -> AppDescriptor {
    AppDescriptor {
        app_id: String::from(id),
        display_name: String::from(name),
        status_text: String::from("Ready"),
        session_id: String::from(&format!("session-{}", id)),
        transport_id: String::from(&format!("transport-{}", id)),
    }
}

fn status(apps: Vec<AppDescriptor>) -> ReceiverStatus {
    ReceiverStatus { applications: apps, volume: VolumeState { level: None, muted: None } }
}

fn status_push(apps: Vec<AppDescriptor>) -> Frame {
    Frame::Receiver(ReceiverMsg::Status(status(apps)))
}

fn load_request(handle: &str) -> LoadRequest {
    LoadRequest {
        handle: String::from(handle),
        media_type: String::from("video/mp4"),
        stream_type: StreamType::Unknown,
        app: AppRef::DefaultMediaReceiver,
    }
}

fn media_entry(session: i32, content: Option<&str>) -> MediaStatusEntry {
    MediaStatusEntry {
        media_session_id: session,
        playback_rate: 1000,
        player_state: PlayerState::Playing,
        current_time: Some(2500),
        media: content.map(|c| MediaInfo {
            content_id: String::from(c),
            content_type: String::from("video/mp4"),
            stream_type: StreamType::Buffered,
            duration: Some(60000),
        }),
    }
}

fn is_mutating(a: &Action) -> bool {
    matches!(
        a,
        Action::Launch(_)
            | Action::StopSession(_)
            | Action::SetVolumeLevel(_)
            | Action::SetVolumeMuted(_)
            | Action::MediaLoad(_)
            | Action::MediaPlay(_)
            | Action::MediaPause(_)
            | Action::MediaStop(_)
            | Action::MediaSeek(_, _)
    )
}

#[test]
fn start_connects_pings_and_requests_status() {
    let (engine, acts) = Engine::start(Command::Info);
    assert!(!engine.done());
    assert_eq!(acts.len(), 3);
    assert_eq!(acts[0], Action::Connect(String::from("receiver-0")));
    assert_eq!(acts[1], Action::Ping);
    assert_eq!(acts[2], Action::RequestStatus);
}

#[test]
fn run_app_is_fire_and_forget() {
    let (mut engine, acts) = Engine::start(Command::RunApp(AppRef::YouTube));
    assert_eq!(acts.len(), 3);
    assert_eq!(acts[2], Action::Launch(AppRef::YouTube));
    assert!(!engine.done());
    let out = engine.on_launch_reply(app("233637DE", "YouTube"));
    assert!(engine.done());
    assert_eq!(out.len(), 1);
    match &out[0] {
        Action::Print(line) => {
            let text: String = line.spans.iter().map(|s| s.text.clone()).collect();
            assert_eq!(
                text,
                "The following application has been run: YouTube (233637DE) - Ready"
            );
        },
        other => panic!("expected a print, got {:?}", other),
    }
}

#[test]
fn relaunch_reply_during_load_is_only_informational() {
    let (mut engine, _) = Engine::start(Command::LoadMedia(load_request("h")));
    engine.handle_frame(status_push(vec![]));
    assert!(!engine.done());
    let out = engine.on_launch_reply(app("CC1AD845", "Default Media Receiver"));
    assert!(out.is_empty());
    assert!(!engine.done());
}

#[test]
fn status_push_replaces_cached_snapshot_wholesale() {
    let (mut engine, _) = Engine::start(Command::LoadMedia(load_request("h")));
    engine.handle_frame(status_push(vec![app("OTHER1", "Other")]));
    let cached = engine.cached.as_ref().expect("cache must be set");
    assert_eq!(cached.applications.len(), 1);
    engine.handle_frame(status_push(vec![]));
    let cached = engine.cached.as_ref().expect("cache must be set");
    assert!(cached.applications.is_empty());
}

#[test]
fn stop_app_with_absent_target_terminates_without_mutation() {
    let (mut engine, _) = Engine::start(Command::StopApp(AppRef::YouTube));
    let acts = engine.handle_frame(status_push(vec![app("OTHER1", "Other")]));
    assert!(engine.done());
    assert!(acts.iter().all(|a| !is_mutating(a)));
    assert_eq!(acts.len(), 1);
    assert!(matches!(acts[0], Action::Print(_)));
}

#[test]
fn stop_current_with_no_apps_terminates_without_mutation() {
    let (mut engine, _) = Engine::start(Command::StopCurrent);
    let acts = engine.handle_frame(status_push(vec![]));
    assert!(engine.done());
    assert!(acts.iter().all(|a| !is_mutating(a)));
}

#[test]
fn transport_control_with_absent_target_terminates_without_mutation() {
    let (mut engine, _) = Engine::start(Command::MediaTransportControl(
        MediaControl::Pause,
        AppRef::DefaultMediaReceiver,
    ));
    let acts = engine.handle_frame(status_push(vec![app("OTHER1", "Other")]));
    assert!(engine.done());
    assert!(acts.iter().all(|a| !is_mutating(a)));
}

#[test]
fn stop_app_stops_the_matching_session() {
    let (mut engine, _) = Engine::start(Command::StopApp(AppRef::DefaultMediaReceiver));
    let acts = engine.handle_frame(status_push(vec![
        app("OTHER1", "Other"),
        app("CC1AD845", "Default Media Receiver"),
    ]));
    assert!(engine.done());
    assert_eq!(acts[0], Action::StopSession(String::from("session-CC1AD845")));
    assert!(matches!(acts[1], Action::Print(_)));
}

#[test]
fn stop_current_stops_the_first_listed_app() {
    let (mut engine, _) = Engine::start(Command::StopCurrent);
    let acts = engine.handle_frame(status_push(vec![
        app("OTHER1", "Other"),
        app("CC1AD845", "Default Media Receiver"),
    ]));
    assert!(engine.done());
    assert_eq!(acts[0], Action::StopSession(String::from("session-OTHER1")));
}

#[test]
fn load_media_with_absent_target_launches_once_and_stays_active() {
    let (mut engine, _) = Engine::start(Command::LoadMedia(load_request("h")));
    let acts = engine.handle_frame(status_push(vec![]));
    assert!(!engine.done());
    assert_eq!(acts.len(), 1);
    assert_eq!(acts[0], Action::Launch(AppRef::DefaultMediaReceiver));
}

#[test]
fn every_ping_is_answered_with_exactly_one_pong_first() {
    let (mut engine, _) = Engine::start(Command::Info);
    let acts = engine.handle_frame(Frame::Heartbeat(HeartbeatMsg::Ping));
    assert_eq!(acts, vec![Action::Pong]);
    let acts = engine.handle_frame(Frame::Heartbeat(HeartbeatMsg::Pong));
    assert!(acts.iter().all(|a| *a != Action::Pong));
    let acts = engine.handle_frame(Frame::Unrecognized(String::from("SOME_TYPE")));
    assert!(acts.iter().all(|a| *a != Action::Pong));
}

#[test]
fn info_twice_against_the_same_status_prints_identically() {
    let apps = || vec![app("CC1AD845", "Default Media Receiver")];
    let (mut first, _) = Engine::start(Command::Info);
    let (mut second, _) = Engine::start(Command::Info);
    second.handle_frame(Frame::Heartbeat(HeartbeatMsg::Ping));
    let out1 = first.handle_frame(status_push(apps()));
    let out2 = second.handle_frame(status_push(apps()));
    assert_eq!(out1, out2);
    assert!(first.done() && second.done());
}

#[test]
fn volume_report_prefers_the_device_value() {
    let (mut engine, acts) = Engine::start(Command::SetVolume(650));
    assert_eq!(acts[2], Action::SetVolumeLevel(650));
    let out = engine.on_volume_reply(VolumeState { level: Some(700), muted: None });
    assert!(engine.done());
    match &out[0] {
        Action::Print(line) => {
            let text: String = line.spans.iter().map(|s| s.text.clone()).collect();
            assert_eq!(text, "Volume level has been set to: 0.7");
        },
        other => panic!("expected a print, got {:?}", other),
    }
}

#[test]
fn volume_report_falls_back_to_the_requested_value() {
    let (mut engine, _) = Engine::start(Command::SetVolume(650));
    let out = engine.on_volume_reply(VolumeState { level: None, muted: None });
    match &out[0] {
        Action::Print(line) => {
            let text: String = line.spans.iter().map(|s| s.text.clone()).collect();
            assert_eq!(text, "Volume level has been set to: 0.65");
        },
        other => panic!("expected a print, got {:?}", other),
    }
}

#[test]
fn mute_reports_the_resulting_state() {
    let (mut engine, acts) = Engine::start(Command::Mute(true));
    assert_eq!(acts[2], Action::SetVolumeMuted(true));
    let out = engine.on_volume_reply(VolumeState { level: None, muted: Some(true) });
    assert!(engine.done());
    match &out[0] {
        Action::Print(line) => {
            let text: String = line.spans.iter().map(|s| s.text.clone()).collect();
            assert_eq!(text, "Cast device is muted: true");
        },
        other => panic!("expected a print, got {:?}", other),
    }
}

#[test]
fn transport_control_addresses_the_reported_media_session() {
    let (mut engine, _) = Engine::start(Command::MediaTransportControl(
        MediaControl::Pause,
        AppRef::DefaultMediaReceiver,
    ));
    let acts = engine.handle_frame(status_push(vec![app("CC1AD845", "Default Media Receiver")]));
    assert_eq!(acts[0], Action::Connect(String::from("transport-CC1AD845")));
    assert_eq!(acts[1], Action::MediaGetStatus(String::from("transport-CC1AD845")));
    assert!(!engine.done());
    let acts = engine.handle_frame(Frame::Media(MediaMsg::Status(vec![media_entry(7, None)])));
    match &acts[0] {
        Action::MediaPause(at) => {
            assert_eq!(at.transport_id, "transport-CC1AD845");
            assert_eq!(at.media_session_id, 7);
        },
        other => panic!("expected a pause, got {:?}", other),
    }
    assert!(!engine.done());
    let acts = engine.handle_frame(Frame::Media(MediaMsg::Status(vec![media_entry(
        7,
        Some("something"),
    )])));
    assert!(engine.done());
    assert!(acts.iter().all(|a| matches!(a, Action::Print(_))));
    match &acts[0] {
        Action::Print(line) => {
            let text: String = line.spans.iter().map(|s| s.text.clone()).collect();
            assert_eq!(text, "Media:");
        },
        other => panic!("expected a print, got {:?}", other),
    }
}

#[test]
fn transport_control_with_no_media_session_terminates_with_notice() {
    let (mut engine, _) = Engine::start(Command::MediaTransportControl(
        MediaControl::Play,
        AppRef::DefaultMediaReceiver,
    ));
    engine.handle_frame(status_push(vec![app("CC1AD845", "Default Media Receiver")]));
    let acts = engine.handle_frame(Frame::Media(MediaMsg::Status(vec![])));
    assert!(engine.done());
    assert_eq!(acts.len(), 1);
    assert!(matches!(acts[0], Action::Print(_)));
}

#[test]
fn load_media_end_to_end() {
    let handle = "https://example/video.mp4";
    let (mut engine, acts) = Engine::start(Command::LoadMedia(load_request(handle)));
    assert_eq!(acts[0], Action::Connect(String::from("receiver-0")));
    assert_eq!(acts[1], Action::Ping);
    assert_eq!(acts[2], Action::RequestStatus);

    // Initial status has no applications: launch, stay active.
    let acts = engine.handle_frame(status_push(vec![]));
    assert_eq!(acts, vec![Action::Launch(AppRef::DefaultMediaReceiver)]);
    assert!(!engine.done());

    // The next push carries the launched app: connect and load.
    let acts = engine.handle_frame(status_push(vec![app("CC1AD845", "Default Media Receiver")]));
    assert_eq!(acts[0], Action::Connect(String::from("transport-CC1AD845")));
    match &acts[1] {
        Action::MediaLoad(load) => {
            assert_eq!(load.transport_id, "transport-CC1AD845");
            assert_eq!(load.session_id, "session-CC1AD845");
            assert_eq!(load.media.content_id, handle);
            assert_eq!(load.media.content_type, "video/mp4");
            assert_eq!(load.media.stream_type, StreamType::Unknown);
            assert!(!load.stream);
        },
        other => panic!("expected a load, got {:?}", other),
    }
    assert!(!engine.done());

    // A media push with some other content does not end the run.
    let acts = engine.handle_frame(Frame::Media(MediaMsg::Status(vec![media_entry(
        1,
        Some("other"),
    )])));
    assert!(!engine.done());
    assert!(acts.iter().all(|a| matches!(a, Action::Print(_))));

    // Pings are still answered while monitoring, pong first.
    let acts = engine.handle_frame(Frame::Heartbeat(HeartbeatMsg::Ping));
    assert_eq!(acts[0], Action::Pong);

    // The push whose entry carries the requested content ends the run.
    let acts = engine.handle_frame(Frame::Media(MediaMsg::Status(vec![media_entry(
        1,
        Some(handle),
    )])));
    assert!(engine.done());
    assert!(acts.iter().all(|a| matches!(a, Action::Print(_))));
}

#[test]
fn stream_media_marks_the_streaming_variant() {
    let (mut engine, _) = Engine::start(Command::StreamMedia(load_request("h2")));
    let acts = engine.handle_frame(status_push(vec![app("CC1AD845", "Default Media Receiver")]));
    match &acts[1] {
        Action::MediaLoad(load) => assert!(load.stream),
        other => panic!("expected a load, got {:?}", other),
    }
}

//! The command resolution engine and the dispatch classification.
//!
//! The engine is a per-run finite sequencing process.  Its transition
//! behaviour is stated once, as spec-level functions from the engine's
//! mathematical state and an inbound event to the next state and the
//! channel operations to perform; every executable handler is proved
//! equal to that model.  The binary around the library performs each
//! [`Action`] against the device and feeds the next inbound [`Frame`]
//! (or synchronous launch or volume reply) back in; the run ends when
//! [`Engine::done`] holds.

use vstd::prelude::*;

use crate::command::{AppRef, AppRefView, Command, CommandView, MediaControl, str_eq};
use crate::render::{
    info_lines, log_line, media_reply_lines, media_status_lines, mute_set_line, no_apps_line,
    no_media_session_line, not_running_line, run_line, spec_info_lines, spec_log_line,
    spec_media_reply_lines, spec_media_status_lines, spec_mute_set_line, spec_no_apps_line,
    spec_no_media_session_line, spec_not_running_line, spec_run_line, spec_stopped_line,
    spec_volume_set_line, stopped_line, volume_set_line, Line, LineView,
};
use crate::status::{
    AppDescriptor, AppDescriptorView, MediaInfo, MediaInfoView, MediaStatusEntry,
    MediaStatusEntryView, ReceiverStatus, ReceiverStatusView, VolumeState,
};

verus! {

/// The destination id of the device-level receiver, to which the first
/// logical sub-connection of every run is opened.
pub open spec fn spec_default_destination() -> Seq<char> {
    "receiver-0"@
}

/// The destination id of the device-level receiver.
pub fn default_destination() -> (r: &'static str)
    ensures
        r@ == spec_default_destination(),
{
    "receiver-0"
}

/// An inbound heartbeat-channel message.
#[derive(Debug, Clone, Copy, PartialEq, Eq, Structural)]
pub enum HeartbeatMsg {
    Ping,
    Pong,
}

/// An inbound connection-channel message.
#[derive(Debug, Clone, Copy, PartialEq, Eq, Structural)]
pub enum ConnectionMsg {
    Connected,
    Closed,
}

/// An inbound receiver-channel message.
#[derive(Debug, Clone, PartialEq)]
pub enum ReceiverMsg {
    /// A complete status push.
    Status(ReceiverStatus),
    /// The device failed to launch an application; logged, never retried.
    LaunchError,
}

/// The mathematical value of a [`ReceiverMsg`].
pub enum ReceiverMsgView {
    Status(ReceiverStatusView),
    LaunchError,
}

impl View for ReceiverMsg {
    type V = ReceiverMsgView;

    open spec fn view(&self) -> ReceiverMsgView {
        match self {
            ReceiverMsg::Status(s) => ReceiverMsgView::Status(s@),
            ReceiverMsg::LaunchError => ReceiverMsgView::LaunchError,
        }
    }
}

/// An inbound media-channel message.
#[derive(Debug, Clone, PartialEq)]
pub enum MediaMsg {
    /// The state of the media sessions of one application.
    Status(Vec<MediaStatusEntry>),
    /// A pending load was cancelled; logged only.
    LoadCancelled,
}

/// The mathematical value of a [`MediaMsg`].
pub enum MediaMsgView {
    Status(Seq<MediaStatusEntryView>),
    LoadCancelled,
}

impl View for MediaMsg {
    type V = MediaMsgView;

    open spec fn view(&self) -> MediaMsgView {
        match self {
            MediaMsg::Status(entries) => MediaMsgView::Status(entries.deep_view()),
            MediaMsg::LoadCancelled => MediaMsgView::LoadCancelled,
        }
    }
}

/// One inbound frame, pre-classified by logical channel.  A frame whose
/// type the client does not model arrives as `Unrecognized` and is never
/// fatal.
#[derive(Debug, Clone, PartialEq)]
pub enum Frame {
    Heartbeat(HeartbeatMsg),
    Connection(ConnectionMsg),
    Receiver(ReceiverMsg),
    Media(MediaMsg),
    Unrecognized(String),
}

/// The mathematical value of a [`Frame`].
pub enum FrameView {
    Heartbeat(HeartbeatMsg),
    Connection(ConnectionMsg),
    Receiver(ReceiverMsgView),
    Media(MediaMsgView),
    Unrecognized(Seq<char>),
}

impl View for Frame {
    type V = FrameView;

    open spec fn view(&self) -> FrameView {
        match self {
            Frame::Heartbeat(m) => FrameView::Heartbeat(*m),
            Frame::Connection(m) => FrameView::Connection(*m),
            Frame::Receiver(m) => FrameView::Receiver(m@),
            Frame::Media(m) => FrameView::Media(m@),
            Frame::Unrecognized(t) => FrameView::Unrecognized(t@),
        }
    }
}

/// The payload of a media load operation.
#[derive(Debug, Clone, PartialEq)]
pub struct MediaLoadAction {
    pub transport_id: String,
    pub session_id: String,
    pub media: MediaInfo,
    /// True for the streaming variant of the operation; the sequencing is
    /// identical, only the operation name differs.
    pub stream: bool,
}

/// The mathematical value of a [`MediaLoadAction`].
pub struct MediaLoadActionView {
    pub transport_id: Seq<char>,
    pub session_id: Seq<char>,
    pub media: MediaInfoView,
    pub stream: bool,
}

impl View for MediaLoadAction {
    type V = MediaLoadActionView;

    open spec fn view(&self) -> MediaLoadActionView {
        MediaLoadActionView {
            transport_id: self.transport_id@,
            session_id: self.session_id@,
            media: self.media@,
            stream: self.stream,
        }
    }
}

/// The addressing of a media transport-control operation.
#[derive(Debug, Clone, PartialEq)]
pub struct MediaSessionAction {
    pub transport_id: String,
    pub media_session_id: i32,
}

/// The mathematical value of a [`MediaSessionAction`].
pub struct MediaSessionActionView {
    pub transport_id: Seq<char>,
    pub media_session_id: i32,
}

impl View for MediaSessionAction {
    type V = MediaSessionActionView;

    open spec fn view(&self) -> MediaSessionActionView {
        MediaSessionActionView {
            transport_id: self.transport_id@,
            media_session_id: self.media_session_id,
        }
    }
}

/// One channel operation (or console print) that the surrounding binary
/// must perform on the engine's behalf.
#[derive(Debug, Clone, PartialEq)]
pub enum Action {
    /// Open a logical sub-connection to a destination id.
    Connect(String),
    /// Send a heartbeat ping.
    Ping,
    /// Answer a heartbeat ping.
    Pong,
    /// Request a Receiver status push.
    RequestStatus,
    /// Launch an application.
    Launch(AppRef),
    /// Stop the application instance with this session id.
    StopSession(String),
    /// Set the volume level, in thousandths of full volume.
    SetVolumeLevel(u32),
    /// Mute or unmute the device.
    SetVolumeMuted(bool),
    /// Request a Media status for this transport id.
    MediaGetStatus(String),
    /// Load (or stream) media on an application.
    MediaLoad(MediaLoadAction),
    /// Resume playback of a media session.
    MediaPlay(MediaSessionAction),
    /// Pause a media session.
    MediaPause(MediaSessionAction),
    /// Stop a media session.
    MediaStop(MediaSessionAction),
    /// Seek in a media session, to a position in thousandths of a second.
    MediaSeek(MediaSessionAction, u32),
    /// Print one report line.
    Print(Line),
}

/// The mathematical value of an [`Action`].
pub enum ActionView {
    Connect(Seq<char>),
    Ping,
    Pong,
    RequestStatus,
    Launch(AppRefView),
    StopSession(Seq<char>),
    SetVolumeLevel(u32),
    SetVolumeMuted(bool),
    MediaGetStatus(Seq<char>),
    MediaLoad(MediaLoadActionView),
    MediaPlay(MediaSessionActionView),
    MediaPause(MediaSessionActionView),
    MediaStop(MediaSessionActionView),
    MediaSeek(MediaSessionActionView, u32),
    Print(LineView),
}

impl View for Action {
    type V = ActionView;

    open spec fn view(&self) -> ActionView {
        match self {
            Action::Connect(d) => ActionView::Connect(d@),
            Action::Ping => ActionView::Ping,
            Action::Pong => ActionView::Pong,
            Action::RequestStatus => ActionView::RequestStatus,
            Action::Launch(r) => ActionView::Launch(r@),
            Action::StopSession(s) => ActionView::StopSession(s@),
            Action::SetVolumeLevel(l) => ActionView::SetVolumeLevel(*l),
            Action::SetVolumeMuted(m) => ActionView::SetVolumeMuted(*m),
            Action::MediaGetStatus(t) => ActionView::MediaGetStatus(t@),
            Action::MediaLoad(p) => ActionView::MediaLoad(p@),
            Action::MediaPlay(p) => ActionView::MediaPlay(p@),
            Action::MediaPause(p) => ActionView::MediaPause(p@),
            Action::MediaStop(p) => ActionView::MediaStop(p@),
            Action::MediaSeek(p, t) => ActionView::MediaSeek(p@, *t),
            Action::Print(l) => ActionView::Print(l@),
        }
    }
}

impl DeepView for Action {
    type V = ActionView;

    open spec fn deep_view(&self) -> ActionView {
        self@
    }
}

/// True of the channel operations that change device state; prints,
/// pings, pongs, connects and status requests are not mutating.
pub open spec fn spec_is_mutating(a: ActionView) -> bool {
    ||| a is Launch
    ||| a is StopSession
    ||| a is SetVolumeLevel
    ||| a is SetVolumeMuted
    ||| a is MediaLoad
    ||| a is MediaPlay
    ||| a is MediaPause
    ||| a is MediaStop
    ||| a is MediaSeek
}

/// Where the engine stands between inbound events.
#[derive(Debug, Clone, PartialEq)]
pub enum Phase {
    /// Waiting for the next Receiver status push.
    AwaitingStatus,
    /// Waiting for the synchronous reply of a launch operation.
    AwaitingLaunch,
    /// Waiting for the synchronous reply of a volume operation.
    AwaitingVolume,
    /// Waiting for a Media status carrying the media session id of the
    /// application at this transport id.
    AwaitingMediaSession(String),
    /// Waiting for the reply of a transport-control operation.
    AwaitingControlReply,
    /// Media was loaded; receiving and logging frames until a Media
    /// status confirms the requested content.
    Monitoring,
    /// The command is complete; the dispatch loop exits.
    Done,
}

/// The mathematical value of a [`Phase`].
pub enum PhaseView {
    AwaitingStatus,
    AwaitingLaunch,
    AwaitingVolume,
    AwaitingMediaSession(Seq<char>),
    AwaitingControlReply,
    Monitoring,
    Done,
}

impl View for Phase {
    type V = PhaseView;

    open spec fn view(&self) -> PhaseView {
        match self {
            Phase::AwaitingStatus => PhaseView::AwaitingStatus,
            Phase::AwaitingLaunch => PhaseView::AwaitingLaunch,
            Phase::AwaitingVolume => PhaseView::AwaitingVolume,
            Phase::AwaitingMediaSession(t) => PhaseView::AwaitingMediaSession(t@),
            Phase::AwaitingControlReply => PhaseView::AwaitingControlReply,
            Phase::Monitoring => PhaseView::Monitoring,
            Phase::Done => PhaseView::Done,
        }
    }
}

/// The command resolution engine: the active command, the cached Receiver
/// status snapshot (replaced wholesale on every push), and the phase.
#[derive(Debug)]
pub struct Engine {
    pub command: Command,
    pub cached: Option<ReceiverStatus>,
    pub phase: Phase,
}

/// The mathematical value of an [`Engine`].
pub struct EngineView {
    pub command: CommandView,
    pub cached: Option<ReceiverStatusView>,
    pub phase: PhaseView,
}

impl View for Engine {
    type V = EngineView;

    open spec fn view(&self) -> EngineView {
        EngineView {
            command: self.command@,
            cached: self.cached.deep_view(),
            phase: self.phase@,
        }
    }
}

/// One print action per report line.
pub open spec fn spec_print_all(lines: Seq<LineView>) -> Seq<ActionView> {
    lines.map_values(|l: LineView| ActionView::Print(l))
}

/// The first application of a status whose id resolves to the reference,
/// searched from position `i`.
pub open spec fn spec_find_app_from(
    apps: Seq<AppDescriptorView>,
    r: AppRefView,
    i: int,
) -> Option<int>
    decreases apps.len() - i,
{
    if i < 0 || i >= apps.len() {
        None
    } else if crate::command::spec_app_matches(r, apps[i].app_id) {
        Some(i)
    } else {
        spec_find_app_from(apps, r, i + 1)
    }
}

/// The first application of a status whose id resolves to the reference.
pub open spec fn spec_find_app(apps: Seq<AppDescriptorView>, r: AppRefView) -> Option<int> {
    spec_find_app_from(apps, r, 0)
}

/// True when some entry of a media status reports this content id.
pub open spec fn spec_has_content(entries: Seq<MediaStatusEntryView>, handle: Seq<char>) -> bool {
    exists|i: int|
        0 <= i < entries.len() && ((#[trigger] entries[i].media) matches Some(m) && m.content_id
            == handle)
}

/// The channel operation of one transport-control action, addressed at a
/// transport id and a media session id.
pub open spec fn spec_control_action(
    ctl: MediaControl,
    transport_id: Seq<char>,
    media_session_id: i32,
) -> ActionView {
    let at = MediaSessionActionView { transport_id, media_session_id };
    match ctl {
        MediaControl::Play => ActionView::MediaPlay(at),
        MediaControl::Pause => ActionView::MediaPause(at),
        MediaControl::Stop => ActionView::MediaStop(at),
        MediaControl::Seek(t) => ActionView::MediaSeek(at, t),
    }
}

/// The engine's start transition, common to every command: open the
/// default destination and send one heartbeat ping; then the command's
/// first operations, and the phase it waits in.
///
/// A launch (`RunApp`) is fire-and-forget: it waits only for the
/// synchronous launch reply, whose descriptor it reports, never for a
/// status push confirming the launch.  A volume command waits only for
/// the synchronous volume reply.  Every other command first requests a
/// Receiver status push.
pub open spec fn spec_start(cmd: CommandView) -> (EngineView, Seq<ActionView>) {
    let common = seq![
        ActionView::Connect(spec_default_destination()),
        ActionView::Ping,
    ];
    match cmd {
        CommandView::RunApp(r) => (
            EngineView { command: cmd, cached: None, phase: PhaseView::AwaitingLaunch },
            common + seq![ActionView::Launch(r)],
        ),
        CommandView::SetVolume(l) => (
            EngineView { command: cmd, cached: None, phase: PhaseView::AwaitingVolume },
            common + seq![ActionView::SetVolumeLevel(l)],
        ),
        CommandView::Mute(m) => (
            EngineView { command: cmd, cached: None, phase: PhaseView::AwaitingVolume },
            common + seq![ActionView::SetVolumeMuted(m)],
        ),
        _ => (
            EngineView { command: cmd, cached: None, phase: PhaseView::AwaitingStatus },
            common + seq![ActionView::RequestStatus],
        ),
    }
}

/// The diagnostic print of the monitor state: while monitoring, every
/// channel message is logged by category; in any other phase nothing is
/// printed.
pub open spec fn spec_monitor_log(e: EngineView, text: Seq<char>) -> Seq<ActionView> {
    if e.phase is Monitoring {
        seq![ActionView::Print(spec_log_line(text))]
    } else {
        seq![]
    }
}

/// The engine's transition on a Receiver status push.
///
/// The cached snapshot is replaced wholesale, whatever the phase.  When
/// the engine is waiting for a status, the active command decides the
/// rest; in every other phase the push only refreshes the cache (and is
/// logged while monitoring).
pub open spec fn spec_on_receiver_status(e: EngineView, s: ReceiverStatusView) -> (
    EngineView,
    Seq<ActionView>,
) {
    let cached = EngineView { command: e.command, cached: Some(s), phase: e.phase };
    if !(e.phase is AwaitingStatus) {
        (cached, spec_monitor_log(e, "[Receiver] status"@))
    } else {
        match e.command {
            CommandView::Info => (
                EngineView { phase: PhaseView::Done, ..cached },
                spec_print_all(spec_info_lines(s)),
            ),
            CommandView::StopApp(r) => match spec_find_app(s.applications, r) {
                Some(i) => (
                    EngineView { phase: PhaseView::Done, ..cached },
                    seq![
                        ActionView::StopSession(s.applications[i].session_id),
                        ActionView::Print(spec_stopped_line(s.applications[i])),
                    ],
                ),
                None => (
                    EngineView { phase: PhaseView::Done, ..cached },
                    seq![ActionView::Print(spec_not_running_line(r))],
                ),
            },
            CommandView::StopCurrent => if s.applications.len() > 0 {
                (
                    EngineView { phase: PhaseView::Done, ..cached },
                    seq![
                        ActionView::StopSession(s.applications[0].session_id),
                        ActionView::Print(spec_stopped_line(s.applications[0])),
                    ],
                )
            } else {
                (
                    EngineView { phase: PhaseView::Done, ..cached },
                    seq![ActionView::Print(spec_no_apps_line())],
                )
            },
            CommandView::MediaTransportControl(_, r) => match spec_find_app(s.applications, r) {
                Some(i) => (
                    EngineView {
                        phase: PhaseView::AwaitingMediaSession(s.applications[i].transport_id),
                        ..cached
                    },
                    seq![
                        ActionView::Connect(s.applications[i].transport_id),
                        ActionView::MediaGetStatus(s.applications[i].transport_id),
                    ],
                ),
                None => (
                    EngineView { phase: PhaseView::Done, ..cached },
                    seq![ActionView::Print(spec_not_running_line(r))],
                ),
            },
            CommandView::LoadMedia(q) => match spec_find_app(s.applications, q.app) {
                Some(i) => (
                    EngineView { phase: PhaseView::Monitoring, ..cached },
                    seq![
                        ActionView::Connect(s.applications[i].transport_id),
                        ActionView::MediaLoad(MediaLoadActionView {
                            transport_id: s.applications[i].transport_id,
                            session_id: s.applications[i].session_id,
                            media: MediaInfoView {
                                content_id: q.handle,
                                content_type: q.media_type,
                                stream_type: q.stream_type,
                                duration: None,
                            },
                            stream: false,
                        }),
                    ],
                ),
                None => (cached, seq![ActionView::Launch(q.app)]),
            },
            CommandView::StreamMedia(q) => match spec_find_app(s.applications, q.app) {
                Some(i) => (
                    EngineView { phase: PhaseView::Monitoring, ..cached },
                    seq![
                        ActionView::Connect(s.applications[i].transport_id),
                        ActionView::MediaLoad(MediaLoadActionView {
                            transport_id: s.applications[i].transport_id,
                            session_id: s.applications[i].session_id,
                            media: MediaInfoView {
                                content_id: q.handle,
                                content_type: q.media_type,
                                stream_type: q.stream_type,
                                duration: None,
                            },
                            stream: true,
                        }),
                    ],
                ),
                None => (cached, seq![ActionView::Launch(q.app)]),
            },
            _ => (cached, seq![]),
        }
    }
}

/// The engine's transition on a Media status (a push, or the reply to a
/// media operation).
///
/// Waiting for a media session: the first entry carries the session id
/// the control operation is addressed at; a status with no entries ends
/// the run with a notice.  Waiting for the control reply: the entries
/// are reported and the run is done.  Monitoring: the entries are
/// reported, and the run is done exactly when one of them carries the
/// requested content id.
pub open spec fn spec_on_media_status(e: EngineView, entries: Seq<MediaStatusEntryView>) -> (
    EngineView,
    Seq<ActionView>,
) {
    match e.phase {
        PhaseView::AwaitingMediaSession(tid) => if entries.len() == 0 {
            (
                EngineView { phase: PhaseView::Done, ..e },
                seq![ActionView::Print(spec_no_media_session_line())],
            )
        } else {
            match e.command {
                CommandView::MediaTransportControl(ctl, _) => (
                    EngineView { phase: PhaseView::AwaitingControlReply, ..e },
                    seq![spec_control_action(ctl, tid, entries[0].media_session_id)],
                ),
                _ => (e, seq![]),
            }
        },
        PhaseView::AwaitingControlReply => (
            EngineView { phase: PhaseView::Done, ..e },
            spec_print_all(spec_media_reply_lines(entries)),
        ),
        PhaseView::Monitoring => {
            let logs = spec_print_all(spec_media_status_lines(entries));
            match e.command {
                CommandView::LoadMedia(q) => if spec_has_content(entries, q.handle) {
                    (EngineView { phase: PhaseView::Done, ..e }, logs)
                } else {
                    (e, logs)
                },
                CommandView::StreamMedia(q) => if spec_has_content(entries, q.handle) {
                    (EngineView { phase: PhaseView::Done, ..e }, logs)
                } else {
                    (e, logs)
                },
                _ => (e, logs),
            }
        },
        _ => (e, seq![]),
    }
}

/// The engine's transition on the synchronous reply of a launch
/// operation: the device-reported descriptor of the launched application
/// is reported, and the run is done.  The descriptor is only reported,
/// never acted on: later decisions re-read the freshest status push.
pub open spec fn spec_on_launch_reply(e: EngineView, a: AppDescriptorView) -> (
    EngineView,
    Seq<ActionView>,
) {
    if e.phase is AwaitingLaunch {
        (
            EngineView { phase: PhaseView::Done, ..e },
            seq![ActionView::Print(spec_run_line(a))],
        )
    } else {
        (e, seq![])
    }
}

/// The engine's transition on the synchronous reply of a volume
/// operation: the reported value is the one the device returned, or the
/// requested one where the device omitted it; then the run is done.
pub open spec fn spec_on_volume_reply(e: EngineView, v: VolumeState) -> (
    EngineView,
    Seq<ActionView>,
) {
    if !(e.phase is AwaitingVolume) {
        (e, seq![])
    } else {
        match e.command {
            CommandView::SetVolume(l) => (
                EngineView { phase: PhaseView::Done, ..e },
                seq![
                    ActionView::Print(spec_volume_set_line(
                        (match v.level {
                            Some(x) => x,
                            None => l,
                        }) as nat,
                    )),
                ],
            ),
            CommandView::Mute(m) => (
                EngineView { phase: PhaseView::Done, ..e },
                seq![
                    ActionView::Print(spec_mute_set_line(
                        match v.muted {
                            Some(x) => x,
                            None => m,
                        },
                    )),
                ],
            ),
            _ => (e, seq![]),
        }
    }
}

/// The dispatch classification of one inbound frame.
///
/// A heartbeat ping is answered with exactly one pong before anything
/// else.  Receiver and Media statuses go to the engine's handlers; every
/// other message only refreshes nothing and is logged while monitoring.
pub open spec fn spec_handle_frame(e: EngineView, f: FrameView) -> (EngineView, Seq<ActionView>) {
    match f {
        FrameView::Heartbeat(HeartbeatMsg::Ping) => (
            e,
            seq![ActionView::Pong] + spec_monitor_log(e, "[Heartbeat] Ping"@),
        ),
        FrameView::Heartbeat(HeartbeatMsg::Pong) => (e, spec_monitor_log(e, "[Heartbeat] Pong"@)),
        FrameView::Connection(ConnectionMsg::Connected) => (
            e,
            spec_monitor_log(e, "[Connection] connect"@),
        ),
        FrameView::Connection(ConnectionMsg::Closed) => (
            e,
            spec_monitor_log(e, "[Connection] close"@),
        ),
        FrameView::Receiver(ReceiverMsgView::Status(s)) => spec_on_receiver_status(e, s),
        FrameView::Receiver(ReceiverMsgView::LaunchError) => (
            e,
            spec_monitor_log(e, "[Receiver] launch error"@),
        ),
        FrameView::Media(MediaMsgView::Status(entries)) => spec_on_media_status(e, entries),
        FrameView::Media(MediaMsgView::LoadCancelled) => (
            e,
            spec_monitor_log(e, "[Media] load cancelled"@),
        ),
        FrameView::Unrecognized(tag) => (
            e,
            spec_monitor_log(
                e,
                "Support for the following message type is not yet supported: "@ + tag,
            ),
        ),
    }
}

/// Finds the first application whose id resolves to the reference, per
/// [`spec_find_app`].
fn find_app(status: &ReceiverStatus, r: &AppRef) -> (idx: Option<usize>)
    ensures
        match idx {
            Some(i) => i < status@.applications.len() && spec_find_app(status@.applications, r@)
                == Some(i as int),
            None => spec_find_app(status@.applications, r@) is None,
        },
{
    let ghost apps = status@.applications;
    let n = status.applications.len();
    for i in 0..n
        invariant
            n == status.applications.len(),
            apps == status@.applications,
            spec_find_app_from(apps, r@, 0) == spec_find_app_from(apps, r@, i as int),
    {
        let a = &status.applications[i];
        if r.matches_app_id(a.app_id.as_str()) {
            proof {
                assert(spec_find_app_from(apps, r@, i as int) == Some(i as int));
            }
            return Some(i);
        }
        proof {
            assert(spec_find_app_from(apps, r@, i as int) == spec_find_app_from(
                apps,
                r@,
                i as int + 1,
            ));
        }
    }
    None
}

/// True when some entry of a media status reports this content id, per
/// [`spec_has_content`].
fn has_content(entries: &Vec<MediaStatusEntry>, handle: &str) -> (r: bool)
    ensures
        r == spec_has_content(entries.deep_view(), handle@),
{
    let n = entries.len();
    for i in 0..n
        invariant
            n == entries.len(),
            forall|j: int|
                0 <= j < i ==> !((#[trigger] entries.deep_view()[j].media) matches Some(m)
                    && m.content_id == handle@),
    {
        if let Some(m) = &entries[i].media {
            if str_eq(m.content_id.as_str(), handle) {
                proof {
                    assert(entries.deep_view()[i as int].media matches Some(mv) && mv.content_id
                        == handle@);
                }
                return true;
            }
        }
        proof {
            assert(!(entries.deep_view()[i as int].media matches Some(m) && m.content_id
                == handle@));
        }
    }
    false
}

/// Builds the channel operation of one transport-control action, per
/// [`spec_control_action`].
fn control_action(ctl: MediaControl, transport_id: String, media_session_id: i32) -> (a: Action)
    ensures
        a@ == spec_control_action(ctl, transport_id@, media_session_id),
{
    let at = MediaSessionAction { transport_id, media_session_id };
    match ctl {
        MediaControl::Play => Action::MediaPlay(at),
        MediaControl::Pause => Action::MediaPause(at),
        MediaControl::Stop => Action::MediaStop(at),
        MediaControl::Seek(t) => Action::MediaSeek(at, t),
    }
}

/// Appends one print action per line, per [`spec_print_all`].
fn push_prints(acts: &mut Vec<Action>, lines: &Vec<Line>)
    ensures
        final(acts).deep_view() == old(acts).deep_view() + spec_print_all(lines.deep_view()),
{
    let ghost base = acts@;
    let n = lines.len();
    for i in 0..n
        invariant
            n == lines.len(),
            acts@.len() == base.len() + i,
            forall|j: int| 0 <= j < base.len() ==> acts@[j] == base[j],
            forall|j: int|
                base.len() <= j < base.len() + i ==> (#[trigger] acts@[j])@ == ActionView::Print(
                    lines.deep_view()[j - base.len()],
                ),
    {
        acts.push(Action::Print(lines[i].clone_line()));
    }
    proof {
        assert(acts.deep_view() =~= old(acts).deep_view() + spec_print_all(lines.deep_view()));
    }
}

impl Engine {
    /// Creates the engine for one command and returns the operations of
    /// the start transition, per [`spec_start`].
    pub fn start(command: Command) -> (r: (Engine, Vec<Action>))
        ensures
            r.0@ == spec_start(command@).0,
            r.1.deep_view() == spec_start(command@).1,
    {
        let ghost cv = command@;
        let mut acts: Vec<Action> = Vec::new();
        acts.push(Action::Connect(String::from_str(default_destination())));
        acts.push(Action::Ping);
        let phase: Phase = match &command {
            Command::RunApp(r) => {
                acts.push(Action::Launch(r.duplicate()));
                Phase::AwaitingLaunch
            },
            Command::SetVolume(l) => {
                acts.push(Action::SetVolumeLevel(*l));
                Phase::AwaitingVolume
            },
            Command::Mute(m) => {
                acts.push(Action::SetVolumeMuted(*m));
                Phase::AwaitingVolume
            },
            _ => {
                acts.push(Action::RequestStatus);
                Phase::AwaitingStatus
            },
        };
        let e = Engine { command, cached: None, phase };
        proof {
            assert(acts.deep_view() =~= spec_start(cv).1);
        }
        (e, acts)
    }

    /// True when the command is complete and the dispatch loop must exit.
    pub fn done(&self) -> (r: bool)
        ensures
            r == (self@.phase is Done),
    {
        matches!(self.phase, Phase::Done)
    }

    /// Handles one inbound frame, per [`spec_handle_frame`]: returns the
    /// operations the surrounding binary must perform, in order.
    pub fn handle_frame(&mut self, frame: Frame) -> (acts: Vec<Action>)
        ensures
            final(self)@ == spec_handle_frame(old(self)@, frame@).0,
            acts.deep_view() == spec_handle_frame(old(self)@, frame@).1,
    {
        let ghost pre = self@;
        let ghost fv = frame@;
        let monitoring = matches!(self.phase, Phase::Monitoring);
        let mut acts: Vec<Action> = Vec::new();
        match frame {
            Frame::Heartbeat(HeartbeatMsg::Ping) => {
                acts.push(Action::Pong);
                if monitoring {
                    acts.push(Action::Print(log_line("[Heartbeat] Ping")));
                }
                proof {
                    assert(acts.deep_view() =~= spec_handle_frame(pre, fv).1);
                }
            },
            Frame::Heartbeat(HeartbeatMsg::Pong) => {
                if monitoring {
                    acts.push(Action::Print(log_line("[Heartbeat] Pong")));
                }
                proof {
                    assert(acts.deep_view() =~= spec_handle_frame(pre, fv).1);
                }
            },
            Frame::Connection(ConnectionMsg::Connected) => {
                if monitoring {
                    acts.push(Action::Print(log_line("[Connection] connect")));
                }
                proof {
                    assert(acts.deep_view() =~= spec_handle_frame(pre, fv).1);
                }
            },
            Frame::Connection(ConnectionMsg::Closed) => {
                if monitoring {
                    acts.push(Action::Print(log_line("[Connection] close")));
                }
                proof {
                    assert(acts.deep_view() =~= spec_handle_frame(pre, fv).1);
                }
            },
            Frame::Receiver(ReceiverMsg::Status(s)) => {
                return self.on_receiver_status(s);
            },
            Frame::Receiver(ReceiverMsg::LaunchError) => {
                if monitoring {
                    acts.push(Action::Print(log_line("[Receiver] launch error")));
                }
                proof {
                    assert(acts.deep_view() =~= spec_handle_frame(pre, fv).1);
                }
            },
            Frame::Media(MediaMsg::Status(entries)) => {
                return self.on_media_status(entries);
            },
            Frame::Media(MediaMsg::LoadCancelled) => {
                if monitoring {
                    acts.push(Action::Print(log_line("[Media] load cancelled")));
                }
                proof {
                    assert(acts.deep_view() =~= spec_handle_frame(pre, fv).1);
                }
            },
            Frame::Unrecognized(tag) => {
                if monitoring {
                    let mut text = String::from_str(
                        "Support for the following message type is not yet supported: ",
                    );
                    text.append(tag.as_str());
                    acts.push(Action::Print(log_line(text.as_str())));
                }
                proof {
                    assert(acts.deep_view() =~= spec_handle_frame(pre, fv).1);
                }
            },
        }
        acts
    }

    /// Handles a Receiver status push, per [`spec_on_receiver_status`]:
    /// the cached snapshot is replaced wholesale, and when the engine was
    /// waiting for a status the command decides the operations returned.
    pub fn on_receiver_status(&mut self, status: ReceiverStatus) -> (acts: Vec<Action>)
        ensures
            final(self)@ == spec_on_receiver_status(old(self)@, status@).0,
            acts.deep_view() == spec_on_receiver_status(old(self)@, status@).1,
    {
        let ghost pre = self@;
        let ghost sv = status@;
        let awaiting = matches!(self.phase, Phase::AwaitingStatus);
        let monitoring = matches!(self.phase, Phase::Monitoring);
        let mut acts: Vec<Action> = Vec::new();
        if !awaiting {
            if monitoring {
                acts.push(Action::Print(log_line("[Receiver] status")));
            }
            self.cached = Some(status);
            proof {
                assert(acts.deep_view() =~= spec_on_receiver_status(pre, sv).1);
            }
            return acts;
        }
        let cmd = self.command.duplicate();
        match cmd {
            Command::Info => {
                let lines = info_lines(&status);
                push_prints(&mut acts, &lines);
                self.phase = Phase::Done;
                proof {
                    assert(acts.deep_view() =~= spec_on_receiver_status(pre, sv).1);
                }
            },
            Command::StopApp(r) => {
                match find_app(&status, &r) {
                    Some(i) => {
                        let app = &status.applications[i];
                        acts.push(Action::StopSession(app.session_id.clone()));
                        acts.push(Action::Print(stopped_line(app)));
                    },
                    None => {
                        acts.push(Action::Print(not_running_line(&r)));
                    },
                }
                self.phase = Phase::Done;
                proof {
                    assert(acts.deep_view() =~= spec_on_receiver_status(pre, sv).1);
                }
            },
            Command::StopCurrent => {
                if status.applications.len() > 0 {
                    let app = &status.applications[0];
                    acts.push(Action::StopSession(app.session_id.clone()));
                    acts.push(Action::Print(stopped_line(app)));
                } else {
                    acts.push(Action::Print(no_apps_line()));
                }
                self.phase = Phase::Done;
                proof {
                    assert(acts.deep_view() =~= spec_on_receiver_status(pre, sv).1);
                }
            },
            Command::MediaTransportControl(_, r) => {
                match find_app(&status, &r) {
                    Some(i) => {
                        let app = &status.applications[i];
                        let tid = app.transport_id.clone();
                        acts.push(Action::Connect(tid.clone()));
                        acts.push(Action::MediaGetStatus(tid.clone()));
                        self.phase = Phase::AwaitingMediaSession(tid);
                    },
                    None => {
                        acts.push(Action::Print(not_running_line(&r)));
                        self.phase = Phase::Done;
                    },
                }
                proof {
                    assert(acts.deep_view() =~= spec_on_receiver_status(pre, sv).1);
                }
            },
            Command::LoadMedia(q) => {
                match find_app(&status, &q.app) {
                    Some(i) => {
                        let app = &status.applications[i];
                        acts.push(Action::Connect(app.transport_id.clone()));
                        acts.push(Action::MediaLoad(MediaLoadAction {
                            transport_id: app.transport_id.clone(),
                            session_id: app.session_id.clone(),
                            media: MediaInfo {
                                content_id: q.handle,
                                content_type: q.media_type,
                                stream_type: q.stream_type,
                                duration: None,
                            },
                            stream: false,
                        }));
                        self.phase = Phase::Monitoring;
                    },
                    None => {
                        acts.push(Action::Launch(q.app));
                    },
                }
                proof {
                    assert(acts.deep_view() =~= spec_on_receiver_status(pre, sv).1);
                }
            },
            Command::StreamMedia(q) => {
                match find_app(&status, &q.app) {
                    Some(i) => {
                        let app = &status.applications[i];
                        acts.push(Action::Connect(app.transport_id.clone()));
                        acts.push(Action::MediaLoad(MediaLoadAction {
                            transport_id: app.transport_id.clone(),
                            session_id: app.session_id.clone(),
                            media: MediaInfo {
                                content_id: q.handle,
                                content_type: q.media_type,
                                stream_type: q.stream_type,
                                duration: None,
                            },
                            stream: true,
                        }));
                        self.phase = Phase::Monitoring;
                    },
                    None => {
                        acts.push(Action::Launch(q.app));
                    },
                }
                proof {
                    assert(acts.deep_view() =~= spec_on_receiver_status(pre, sv).1);
                }
            },
            _ => {},
        }
        self.cached = Some(status);
        proof {
            assert(acts.deep_view() =~= spec_on_receiver_status(pre, sv).1);
        }
        acts
    }

    /// Handles a Media status, per [`spec_on_media_status`].
    pub fn on_media_status(&mut self, entries: Vec<MediaStatusEntry>) -> (acts: Vec<Action>)
        ensures
            final(self)@ == spec_on_media_status(old(self)@, entries.deep_view()).0,
            acts.deep_view() == spec_on_media_status(old(self)@, entries.deep_view()).1,
    {
        let ghost pre = self@;
        let ghost ev = entries.deep_view();
        let mut acts: Vec<Action> = Vec::new();
        let phase_med = match &self.phase {
            Phase::AwaitingMediaSession(t) => Some(t.clone()),
            _ => None,
        };
        if let Some(tid) = phase_med {
            if entries.len() == 0 {
                acts.push(Action::Print(no_media_session_line()));
                self.phase = Phase::Done;
                proof {
                    assert(acts.deep_view() =~= spec_on_media_status(pre, ev).1);
                }
                return acts;
            }
            let sid = entries[0].media_session_id;
            let cmd = self.command.duplicate();
            if let Command::MediaTransportControl(ctl, _) = cmd {
                acts.push(control_action(ctl, tid, sid));
                self.phase = Phase::AwaitingControlReply;
            }
            proof {
                assert(acts.deep_view() =~= spec_on_media_status(pre, ev).1);
            }
            return acts;
        }
        if matches!(self.phase, Phase::AwaitingControlReply) {
            let lines = media_reply_lines(&entries);
            push_prints(&mut acts, &lines);
            self.phase = Phase::Done;
            proof {
                assert(acts.deep_view() =~= spec_on_media_status(pre, ev).1);
            }
            return acts;
        }
        if matches!(self.phase, Phase::Monitoring) {
            let lines = media_status_lines(&entries);
            push_prints(&mut acts, &lines);
            let cmd = self.command.duplicate();
            match cmd {
                Command::LoadMedia(q) => {
                    if has_content(&entries, q.handle.as_str()) {
                        self.phase = Phase::Done;
                    }
                },
                Command::StreamMedia(q) => {
                    if has_content(&entries, q.handle.as_str()) {
                        self.phase = Phase::Done;
                    }
                },
                _ => {},
            }
            proof {
                assert(acts.deep_view() =~= spec_on_media_status(pre, ev).1);
            }
            return acts;
        }
        proof {
            assert(acts.deep_view() =~= spec_on_media_status(pre, ev).1);
        }
        acts
    }

    /// Handles the synchronous reply of a launch operation, per
    /// [`spec_on_launch_reply`].
    pub fn on_launch_reply(&mut self, app: AppDescriptor) -> (acts: Vec<Action>)
        ensures
            final(self)@ == spec_on_launch_reply(old(self)@, app@).0,
            acts.deep_view() == spec_on_launch_reply(old(self)@, app@).1,
    {
        let ghost pre = self@;
        let mut acts: Vec<Action> = Vec::new();
        if matches!(self.phase, Phase::AwaitingLaunch) {
            acts.push(Action::Print(run_line(&app)));
            self.phase = Phase::Done;
        }
        proof {
            assert(acts.deep_view() =~= spec_on_launch_reply(pre, app@).1);
        }
        acts
    }

    /// Handles the synchronous reply of a volume operation, per
    /// [`spec_on_volume_reply`].
    pub fn on_volume_reply(&mut self, v: VolumeState) -> (acts: Vec<Action>)
        ensures
            final(self)@ == spec_on_volume_reply(old(self)@, v).0,
            acts.deep_view() == spec_on_volume_reply(old(self)@, v).1,
    {
        let ghost pre = self@;
        let mut acts: Vec<Action> = Vec::new();
        if !matches!(self.phase, Phase::AwaitingVolume) {
            proof {
                assert(acts.deep_view() =~= spec_on_volume_reply(pre, v).1);
            }
            return acts;
        }
        let cmd = self.command.duplicate();
        match cmd {
            Command::SetVolume(l) => {
                let reported: u32 = match v.level {
                    Some(x) => x,
                    None => l,
                };
                acts.push(Action::Print(volume_set_line(reported)));
                self.phase = Phase::Done;
                proof {
                    assert(acts.deep_view() =~= spec_on_volume_reply(pre, v).1);
                }
            },
            Command::Mute(m) => {
                let reported: bool = match v.muted {
                    Some(x) => x,
                    None => m,
                };
                acts.push(Action::Print(mute_set_line(reported)));
                self.phase = Phase::Done;
                proof {
                    assert(acts.deep_view() =~= spec_on_volume_reply(pre, v).1);
                }
            },
            _ => {
                proof {
                    assert(acts.deep_view() =~= spec_on_volume_reply(pre, v).1);
                }
            },
        }
        acts
    }
}

} // verus!

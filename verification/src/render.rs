//! Rendering of the human-readable report lines.
//!
//! A report line is a sequence of tinted spans; the binary around the
//! library paints each span in its tint and prints the line.  Keeping the
//! spans structured here pins down the exact field order and presence
//! rules of the output, while leaving the terminal escape codes outside
//! the verified core.

use vstd::prelude::*;

use crate::numbers::{decimal_string, milli_string, spec_decimal, spec_milli};
use crate::status::{
    AppDescriptorView, MediaInfoView, MediaStatusEntry, MediaStatusEntryView, PlayerState,
    ReceiverStatusView, StreamType,
};
use crate::command::{spec_app_ref_id, AppRefView};

verus! {

/// The tint of one span of a report line.
#[derive(Debug, Clone, Copy, PartialEq, Eq, Structural)]
pub enum Tint {
    Green,
    Red,
    Plain,
}

/// One tinted piece of a report line.
#[derive(Debug, Clone, PartialEq)]
pub struct Span {
    pub tint: Tint,
    pub text: String,
}

/// The mathematical value of a [`Span`].
pub struct SpanView {
    pub tint: Tint,
    pub text: Seq<char>,
}

impl View for Span {
    type V = SpanView;

    open spec fn view(&self) -> SpanView {
        SpanView { tint: self.tint, text: self.text@ }
    }
}

impl DeepView for Span {
    type V = SpanView;

    open spec fn deep_view(&self) -> SpanView {
        self@
    }
}

/// One report line.
#[derive(Debug, Clone, PartialEq)]
pub struct Line {
    pub spans: Vec<Span>,
}

/// The mathematical value of a [`Line`].
pub struct LineView {
    pub spans: Seq<SpanView>,
}

impl View for Line {
    type V = LineView;

    open spec fn view(&self) -> LineView {
        LineView { spans: self.spans.deep_view() }
    }
}

impl DeepView for Line {
    type V = LineView;

    open spec fn deep_view(&self) -> LineView {
        self@
    }
}

/// A green span.
pub open spec fn green(text: Seq<char>) -> SpanView {
    SpanView { tint: Tint::Green, text }
}

/// A red span.
pub open spec fn red(text: Seq<char>) -> SpanView {
    SpanView { tint: Tint::Red, text }
}

/// An untinted span.
pub open spec fn plain(text: Seq<char>) -> SpanView {
    SpanView { tint: Tint::Plain, text }
}

fn gsp(text: &str) -> (s: Span)
    ensures
        s@ == green(text@),
{
    Span { tint: Tint::Green, text: String::from_str(text) }
}

fn rsp(text: &str) -> (s: Span)
    ensures
        s@ == red(text@),
{
    Span { tint: Tint::Red, text: String::from_str(text) }
}

fn rsp_owned(text: String) -> (s: Span)
    ensures
        s@ == red(text@),
{
    Span { tint: Tint::Red, text }
}

fn psp(text: &str) -> (s: Span)
    ensures
        s@ == plain(text@),
{
    Span { tint: Tint::Plain, text: String::from_str(text) }
}

/// The report label of a player state.
pub open spec fn spec_player_state_label(p: PlayerState) -> Seq<char> {
    match p {
        PlayerState::Idle => "IDLE"@,
        PlayerState::Playing => "PLAYING"@,
        PlayerState::Buffering => "BUFFERING"@,
        PlayerState::Paused => "PAUSED"@,
    }
}

/// The report label of a player state, per [`spec_player_state_label`].
pub fn player_state_label(p: PlayerState) -> (s: &'static str)
    ensures
        s@ == spec_player_state_label(p),
{
    match p {
        PlayerState::Idle => "IDLE",
        PlayerState::Playing => "PLAYING",
        PlayerState::Buffering => "BUFFERING",
        PlayerState::Paused => "PAUSED",
    }
}

/// The report label of a delivery mode.
pub open spec fn spec_stream_type_label(t: StreamType) -> Seq<char> {
    match t {
        StreamType::Buffered => "BUFFERED"@,
        StreamType::Live => "LIVE"@,
        StreamType::Unknown => "NONE"@,
    }
}

/// The report label of a delivery mode, per [`spec_stream_type_label`].
pub fn stream_type_label(t: StreamType) -> (s: &'static str)
    ensures
        s@ == spec_stream_type_label(t),
{
    match t {
        StreamType::Buffered => "BUFFERED",
        StreamType::Live => "LIVE",
        StreamType::Unknown => "NONE",
    }
}

/// The report label of a truth value.
pub open spec fn spec_bool_label(b: bool) -> Seq<char> {
    if b {
        "true"@
    } else {
        "false"@
    }
}

/// The report label of a truth value, per [`spec_bool_label`].
pub fn bool_label(b: bool) -> (s: &'static str)
    ensures
        s@ == spec_bool_label(b),
{
    if b {
        "true"
    } else {
        "false"
    }
}

/// The header line of the Info report: the number of running applications.
pub open spec fn spec_app_count_line(n: nat) -> LineView {
    LineView {
        spans: seq![
            green("Number of apps run:"@),
            plain(" "@),
            red(spec_decimal(n)),
        ],
    }
}

/// One application of the Info report: position, display name,
/// application id, and status text.
pub open spec fn spec_app_line(i: nat, a: AppDescriptorView) -> LineView {
    LineView {
        spans: seq![
            green("App#"@),
            green(spec_decimal(i)),
            green(": "@),
            red(a.display_name),
            red(" ("@),
            red(a.app_id),
            red(")"@),
            red(" - "@),
            red(a.status_text),
        ],
    }
}

/// The volume-level line of the Info report.
pub open spec fn spec_volume_level_line(level: nat) -> LineView {
    LineView {
        spans: seq![green("Volume level:"@), plain(" "@), red(spec_milli(level))],
    }
}

/// The muted line of the Info report.
pub open spec fn spec_muted_line(muted: bool) -> LineView {
    LineView {
        spans: seq![green("Muted:"@), plain(" "@), red(spec_bool_label(muted))],
    }
}

/// An empty line, separating the Info report from its surroundings.
pub open spec fn spec_blank_line() -> LineView {
    LineView { spans: seq![] }
}

/// The complete Info report of one status snapshot: a separating blank
/// line, the application count, one line per application in
/// device-reported order, then the volume level and the muted flag, each
/// only when the device reported it (the muted line closes with a second
/// blank line).
pub open spec fn spec_info_lines(s: ReceiverStatusView) -> Seq<LineView> {
    seq![spec_blank_line(), spec_app_count_line(s.applications.len())] + Seq::new(
        s.applications.len(),
        |i: int| spec_app_line(i as nat, s.applications[i]),
    ) + (match s.volume.level {
        Some(l) => seq![spec_volume_level_line(l as nat)],
        None => seq![],
    }) + (match s.volume.muted {
        Some(m) => seq![spec_muted_line(m), spec_blank_line()],
        None => seq![],
    })
}

/// The confirmation printed when a running application was told to stop.
pub open spec fn spec_stopped_line(a: AppDescriptorView) -> LineView {
    LineView {
        spans: seq![
            green("The following application has been stopped: "@),
            red(a.display_name),
            red(" ("@),
            red(a.app_id),
            red(")"@),
            red(" - "@),
            red(a.status_text),
        ],
    }
}

/// The notice printed when the referenced application is not running.
pub open spec fn spec_not_running_line(r: AppRefView) -> LineView {
    LineView {
        spans: seq![
            green("Application"@),
            plain(" `"@),
            red(spec_app_ref_id(r)),
            plain("` "@),
            green("is not run!"@),
        ],
    }
}

/// The notice printed when no application is active at all.
pub open spec fn spec_no_apps_line() -> LineView {
    LineView { spans: seq![green("There are no applications active!"@)] }
}

/// The confirmation printed when the device reports the application it
/// launched: its display name, application id and status text.
pub open spec fn spec_run_line(a: AppDescriptorView) -> LineView {
    LineView {
        spans: seq![
            green("The following application has been run: "@),
            red(a.display_name),
            red(" ("@),
            red(a.app_id),
            red(")"@),
            red(" - "@),
            red(a.status_text),
        ],
    }
}

/// The report printed after setting the volume level.
pub open spec fn spec_volume_set_line(level: nat) -> LineView {
    LineView {
        spans: seq![green("Volume level has been set to: "@), red(spec_milli(level))],
    }
}

/// The report printed after muting or unmuting.
pub open spec fn spec_mute_set_line(muted: bool) -> LineView {
    LineView {
        spans: seq![green("Cast device is muted: "@), red(spec_bool_label(muted))],
    }
}

/// The notice printed when the application reports no media session.
pub open spec fn spec_no_media_session_line() -> LineView {
    LineView { spans: seq![green("There is no active media session!"@)] }
}

/// A diagnostic line of the monitor loop, untinted.
pub open spec fn spec_log_line(text: Seq<char>) -> LineView {
    LineView { spans: seq![plain(text)] }
}

/// The header line of one media status entry.
pub open spec fn spec_media_header_line(i: nat) -> LineView {
    LineView {
        spans: seq![green("Media#"@), green(spec_decimal(i)), green(": "@)],
    }
}

/// A labelled line of a media status entry.
pub open spec fn spec_labelled_line(label: Seq<char>, value: Seq<char>) -> LineView {
    LineView { spans: seq![green(label), plain(" "@), red(value)] }
}

/// The lines of the media description inside a status entry: content id,
/// delivery mode, content type, and duration when reported.
pub open spec fn spec_media_info_lines(m: MediaInfoView) -> Seq<LineView> {
    seq![
        spec_labelled_line("Content Id:"@, m.content_id),
        spec_labelled_line("Stream type:"@, spec_stream_type_label(m.stream_type)),
        spec_labelled_line("Content type:"@, m.content_type),
    ] + (match m.duration {
        Some(d) => seq![spec_labelled_line("Duration:"@, spec_milli(d as nat))],
        None => seq![],
    })
}

/// The body of one media status entry: playback rate, player state, then
/// the position and the media description, each only when reported.
pub open spec fn spec_media_entry_body(e: MediaStatusEntryView) -> Seq<LineView> {
    seq![
        spec_labelled_line("Playback rate:"@, spec_milli(e.playback_rate as nat)),
        spec_labelled_line("Player state:"@, spec_player_state_label(e.player_state)),
    ] + (match e.current_time {
        Some(t) => seq![spec_labelled_line("Current time:"@, spec_milli(t as nat))],
        None => seq![],
    }) + (match e.media {
        Some(m) => spec_media_info_lines(m),
        None => seq![],
    })
}

/// The lines of one media status entry at position `i`: the indexed
/// header, then the entry's body.
pub open spec fn spec_media_entry_lines(i: nat, e: MediaStatusEntryView) -> Seq<LineView> {
    seq![spec_media_header_line(i)] + spec_media_entry_body(e)
}

/// The report of the reply to a transport-control operation: a plain
/// `Media:` header, then the body of the returned entry; nothing when
/// the reply carries no entry.
pub open spec fn spec_media_reply_lines(entries: Seq<MediaStatusEntryView>) -> Seq<LineView> {
    if entries.len() == 0 {
        seq![]
    } else {
        seq![LineView { spans: seq![green("Media:"@)] }] + spec_media_entry_body(entries[0])
    }
}

/// The report of a whole media status push: the lines of every entry, in
/// order.
pub open spec fn spec_media_status_lines(entries: Seq<MediaStatusEntryView>) -> Seq<LineView>
    decreases entries.len(),
{
    if entries.len() == 0 {
        seq![]
    } else {
        spec_media_status_lines(entries.drop_last()) + spec_media_entry_lines(
            (entries.len() - 1) as nat,
            entries.last(),
        )
    }
}

fn new_line(spans: Vec<Span>) -> (r: Line)
    ensures
        r@.spans == spans.deep_view(),
{
    Line { spans }
}

/// Builds the Info header line, per [`spec_app_count_line`].
fn app_count_line(n: usize) -> (r: Line)
    ensures
        r@ == spec_app_count_line(n as nat),
{
    let mut spans: Vec<Span> = Vec::new();
    spans.push(gsp("Number of apps run:"));
    spans.push(psp(" "));
    spans.push(rsp_owned(decimal_string(n as u64)));
    let r = new_line(spans);
    proof {
        assert(r@.spans =~= spec_app_count_line(n as nat).spans);
    }
    r
}

/// Builds one application line of the Info report, per [`spec_app_line`].
fn app_line(i: usize, a: &crate::status::AppDescriptor) -> (r: Line)
    ensures
        r@ == spec_app_line(i as nat, a@),
{
    let mut spans: Vec<Span> = Vec::new();
    spans.push(gsp("App#"));
    spans.push(Span { tint: Tint::Green, text: decimal_string(i as u64) });
    spans.push(gsp(": "));
    spans.push(rsp_owned(a.display_name.clone()));
    spans.push(rsp(" ("));
    spans.push(rsp_owned(a.app_id.clone()));
    spans.push(rsp(")"));
    spans.push(rsp(" - "));
    spans.push(rsp_owned(a.status_text.clone()));
    let r = new_line(spans);
    proof {
        assert(r@.spans =~= spec_app_line(i as nat, a@).spans);
    }
    r
}

/// Builds a labelled line, per [`spec_labelled_line`].
fn labelled_line(label: &str, value: String) -> (r: Line)
    ensures
        r@ == spec_labelled_line(label@, value@),
{
    let mut spans: Vec<Span> = Vec::new();
    spans.push(gsp(label));
    spans.push(psp(" "));
    spans.push(rsp_owned(value));
    let r = new_line(spans);
    proof {
        assert(r@.spans =~= spec_labelled_line(label@, value@).spans);
    }
    r
}

/// Builds the Info report of a status snapshot, per [`spec_info_lines`].
pub fn info_lines(s: &crate::status::ReceiverStatus) -> (r: Vec<Line>)
    ensures
        r.deep_view() == spec_info_lines(s@),
{
    let ghost apps = s@.applications;
    let mut lines: Vec<Line> = Vec::new();
    lines.push(blank_line());
    lines.push(app_count_line(s.applications.len()));
    let napps = s.applications.len();
    for i in 0..napps
        invariant
            napps == s.applications.len(),
            apps == s@.applications,
            lines@.len() == 2 + i,
            lines@[0]@ == spec_blank_line(),
            lines@[1]@ == spec_app_count_line(apps.len()),
            forall|j: int|
                2 <= j < 2 + i ==> (#[trigger] lines@[j])@ == spec_app_line(
                    (j - 2) as nat,
                    apps[j - 2],
                ),
    {
        let a = &s.applications[i];
        lines.push(app_line(i, a));
        proof {
            assert(a@ == apps[i as int]);
        }
    }
    let ghost nbody: int = 2 + napps as int;
    let ghost body = lines@;
    let ghost nvol: int = if s@.volume.level is Some {
        1int
    } else {
        0int
    };
    let ghost nmut: int = if s@.volume.muted is Some {
        2int
    } else {
        0int
    };
    if let Some(level) = s.volume.level {
        let ghost pre = lines@;
        lines.push(labelled_line("Volume level:", milli_string(level)));
        proof {
            assert(forall|j: int| 0 <= j < pre.len() ==> lines@[j] == pre[j]);
            assert(lines@[nbody]@ == spec_volume_level_line(level as nat));
        }
    }
    if let Some(muted) = s.volume.muted {
        let ghost pre = lines@;
        lines.push(labelled_line("Muted:", String::from_str(bool_label(muted))));
        proof {
            assert(forall|j: int| 0 <= j < pre.len() ==> lines@[j] == pre[j]);
            assert(lines@[nbody + nvol]@ == spec_muted_line(muted));
        }
        let ghost pre2 = lines@;
        lines.push(blank_line());
        proof {
            assert(forall|j: int| 0 <= j < pre2.len() ==> lines@[j] == pre2[j]);
            assert(lines@[nbody + nvol + 1]@ == spec_blank_line());
        }
    }
    proof {
        let ghost dv = lines.deep_view();
        let ghost exp = spec_info_lines(s@);
        let ghost a = seq![spec_blank_line(), spec_app_count_line(apps.len())];
        let ghost b = Seq::new(apps.len(), |i: int| spec_app_line(i as nat, apps[i]));
        let ghost c: Seq<LineView> = match s@.volume.level {
            Some(l) => seq![spec_volume_level_line(l as nat)],
            None => seq![],
        };
        let ghost d: Seq<LineView> = match s@.volume.muted {
            Some(m) => seq![spec_muted_line(m), spec_blank_line()],
            None => seq![],
        };
        assert(b =~= Seq::new(s@.applications.len(), |i: int| spec_app_line(
            i as nat,
            s@.applications[i],
        )));
        assert(exp == a + b + c + d);
        assert(exp.len() == nbody + nvol + nmut);
        assert(lines@.len() == nbody + nvol + nmut);
        assert forall|k: int| 0 <= k < dv.len() implies dv[k] == exp[k] by {
            assert(dv[k] == lines@[k]@);
            if k < 2 {
                assert(exp[k] == a[k]);
                assert(lines@[k] == body[k]);
            } else if k < nbody {
                assert(exp[k] == b[k - 2]);
                assert(b[k - 2] == spec_app_line((k - 2) as nat, apps[k - 2]));
                assert(lines@[k] == body[k]);
                assert((body[k])@ == spec_app_line((k - 2) as nat, apps[k - 2]));
            } else if k < nbody + nvol {
                assert(exp[k] == c[0]);
            } else {
                assert(exp[k] == d[k - nbody - nvol]);
            }
        }
        assert(dv =~= exp);
    }
    lines
}

/// Builds the stop confirmation, per [`spec_stopped_line`].
pub fn stopped_line(a: &crate::status::AppDescriptor) -> (r: Line)
    ensures
        r@ == spec_stopped_line(a@),
{
    let mut spans: Vec<Span> = Vec::new();
    spans.push(gsp("The following application has been stopped: "));
    spans.push(rsp_owned(a.display_name.clone()));
    spans.push(rsp(" ("));
    spans.push(rsp_owned(a.app_id.clone()));
    spans.push(rsp(")"));
    spans.push(rsp(" - "));
    spans.push(rsp_owned(a.status_text.clone()));
    let r = new_line(spans);
    proof {
        assert(r@.spans =~= spec_stopped_line(a@).spans);
    }
    r
}

/// Builds the not-running notice, per [`spec_not_running_line`].
pub fn not_running_line(r: &crate::command::AppRef) -> (l: Line)
    ensures
        l@ == spec_not_running_line(r@),
{
    let mut spans: Vec<Span> = Vec::new();
    spans.push(gsp("Application"));
    spans.push(psp(" `"));
    spans.push(rsp_owned(r.id_string()));
    spans.push(psp("` "));
    spans.push(gsp("is not run!"));
    let l = new_line(spans);
    proof {
        assert(l@.spans =~= spec_not_running_line(r@).spans);
    }
    l
}

/// Builds the no-applications notice, per [`spec_no_apps_line`].
pub fn no_apps_line() -> (l: Line)
    ensures
        l@ == spec_no_apps_line(),
{
    let mut spans: Vec<Span> = Vec::new();
    spans.push(gsp("There are no applications active!"));
    let l = new_line(spans);
    proof {
        assert(l@.spans =~= spec_no_apps_line().spans);
    }
    l
}

/// Builds an empty line, per [`spec_blank_line`].
pub fn blank_line() -> (l: Line)
    ensures
        l@ == spec_blank_line(),
{
    let spans: Vec<Span> = Vec::new();
    let l = new_line(spans);
    proof {
        assert(l@.spans =~= spec_blank_line().spans);
    }
    l
}

/// Builds the launch confirmation, per [`spec_run_line`].
pub fn run_line(a: &crate::status::AppDescriptor) -> (l: Line)
    ensures
        l@ == spec_run_line(a@),
{
    let mut spans: Vec<Span> = Vec::new();
    spans.push(gsp("The following application has been run: "));
    spans.push(rsp_owned(a.display_name.clone()));
    spans.push(rsp(" ("));
    spans.push(rsp_owned(a.app_id.clone()));
    spans.push(rsp(")"));
    spans.push(rsp(" - "));
    spans.push(rsp_owned(a.status_text.clone()));
    let l = new_line(spans);
    proof {
        assert(l@.spans =~= spec_run_line(a@).spans);
    }
    l
}

/// Builds the volume report, per [`spec_volume_set_line`].
pub fn volume_set_line(level: u32) -> (l: Line)
    ensures
        l@ == spec_volume_set_line(level as nat),
{
    let mut spans: Vec<Span> = Vec::new();
    spans.push(gsp("Volume level has been set to: "));
    spans.push(rsp_owned(milli_string(level)));
    let l = new_line(spans);
    proof {
        assert(l@.spans =~= spec_volume_set_line(level as nat).spans);
    }
    l
}

/// Builds the mute report, per [`spec_mute_set_line`].
pub fn mute_set_line(muted: bool) -> (l: Line)
    ensures
        l@ == spec_mute_set_line(muted),
{
    let mut spans: Vec<Span> = Vec::new();
    spans.push(gsp("Cast device is muted: "));
    spans.push(rsp_owned(String::from_str(bool_label(muted))));
    let l = new_line(spans);
    proof {
        assert(l@.spans =~= spec_mute_set_line(muted).spans);
    }
    l
}

/// Builds the no-media-session notice, per [`spec_no_media_session_line`].
pub fn no_media_session_line() -> (l: Line)
    ensures
        l@ == spec_no_media_session_line(),
{
    let mut spans: Vec<Span> = Vec::new();
    spans.push(gsp("There is no active media session!"));
    let l = new_line(spans);
    proof {
        assert(l@.spans =~= spec_no_media_session_line().spans);
    }
    l
}

/// Builds an untinted diagnostic line, per [`spec_log_line`].
pub fn log_line(text: &str) -> (l: Line)
    ensures
        l@ == spec_log_line(text@),
{
    let mut spans: Vec<Span> = Vec::new();
    spans.push(psp(text));
    let l = new_line(spans);
    proof {
        assert(l@.spans =~= spec_log_line(text@).spans);
    }
    l
}

/// Builds the body of one media status entry, per
/// [`spec_media_entry_body`].
fn media_entry_body(e: &MediaStatusEntry) -> (r: Vec<Line>)
    ensures
        r.deep_view() == spec_media_entry_body(e@),
{
    let mut lines: Vec<Line> = Vec::new();
    lines.push(labelled_line("Playback rate:", milli_string(e.playback_rate)));
    lines.push(labelled_line("Player state:", String::from_str(player_state_label(e.player_state))));
    if let Some(t) = e.current_time {
        lines.push(labelled_line("Current time:", milli_string(t)));
    }
    if let Some(m) = &e.media {
        lines.push(labelled_line("Content Id:", m.content_id.clone()));
        lines.push(labelled_line("Stream type:", String::from_str(stream_type_label(m.stream_type))));
        lines.push(labelled_line("Content type:", m.content_type.clone()));
        if let Some(d) = m.duration {
            lines.push(labelled_line("Duration:", milli_string(d)));
        }
    }
    proof {
        assert(lines.deep_view() =~= spec_media_entry_body(e@));
    }
    lines
}

/// Builds the lines of one media status entry, per
/// [`spec_media_entry_lines`].
fn media_entry_lines(i: usize, e: &MediaStatusEntry) -> (r: Vec<Line>)
    ensures
        r.deep_view() == spec_media_entry_lines(i as nat, e@),
{
    let mut lines: Vec<Line> = Vec::new();
    let mut header: Vec<Span> = Vec::new();
    header.push(gsp("Media#"));
    header.push(Span { tint: Tint::Green, text: decimal_string(i as u64) });
    header.push(gsp(": "));
    let h = new_line(header);
    proof {
        assert(h@.spans =~= spec_media_header_line(i as nat).spans);
    }
    lines.push(h);
    let mut body = media_entry_body(e);
    let ghost lines0 = lines.deep_view();
    let ghost body0 = body.deep_view();
    lines.append(&mut body);
    proof {
        assert(lines.deep_view() =~= lines0 + body0);
        assert(lines.deep_view() =~= spec_media_entry_lines(i as nat, e@));
    }
    lines
}

/// Builds the report of the reply to a transport-control operation, per
/// [`spec_media_reply_lines`].
pub fn media_reply_lines(entries: &Vec<MediaStatusEntry>) -> (r: Vec<Line>)
    ensures
        r.deep_view() == spec_media_reply_lines(entries.deep_view()),
{
    let mut lines: Vec<Line> = Vec::new();
    if entries.len() == 0 {
        proof {
            assert(lines.deep_view() =~= spec_media_reply_lines(entries.deep_view()));
        }
        return lines;
    }
    let mut header: Vec<Span> = Vec::new();
    header.push(gsp("Media:"));
    let h = new_line(header);
    proof {
        assert(h@.spans =~= seq![green("Media:"@)]);
    }
    lines.push(h);
    let mut body = media_entry_body(&entries[0]);
    let ghost lines0 = lines.deep_view();
    let ghost body0 = body.deep_view();
    lines.append(&mut body);
    proof {
        assert(lines.deep_view() =~= lines0 + body0);
        assert(lines.deep_view() =~= spec_media_reply_lines(entries.deep_view()));
    }
    lines
}

/// Builds the report of a whole media status push, per
/// [`spec_media_status_lines`].
pub fn media_status_lines(entries: &Vec<MediaStatusEntry>) -> (r: Vec<Line>)
    ensures
        r.deep_view() == spec_media_status_lines(entries.deep_view()),
{
    let mut lines: Vec<Line> = Vec::new();
    let n = entries.len();
    for i in 0..n
        invariant
            n == entries.len(),
            lines.deep_view() =~= spec_media_status_lines(entries.deep_view().take(i as int)),
    {
        let mut entry_lines = media_entry_lines(i, &entries[i]);
        let ghost lines0 = lines.deep_view();
        let ghost entry0 = entry_lines.deep_view();
        lines.append(&mut entry_lines);
        proof {
            assert(lines.deep_view() =~= lines0 + entry0);
            assert(entries.deep_view().take(i + 1).drop_last() =~= entries.deep_view().take(
                i as int,
            ));
            assert(entries.deep_view().take(i + 1).last() == entries.deep_view()[i as int]);
            assert(lines.deep_view() =~= spec_media_status_lines(
                entries.deep_view().take(i + 1),
            ));
        }
    }
    proof {
        assert(entries.deep_view().take(n as int) =~= entries.deep_view());
    }
    lines
}

impl Line {
    /// A copy, equal to the original at the model level.
    pub fn clone_line(&self) -> (r: Line)
        ensures
            r@ == self@,
    {
        let mut spans: Vec<Span> = Vec::new();
        let n = self.spans.len();
        for i in 0..n
            invariant
                n == self.spans.len(),
                spans.deep_view() =~= self.spans.deep_view().take(i as int),
        {
            let s = &self.spans[i];
            spans.push(Span { tint: s.tint, text: s.text.clone() });
            proof {
                assert(self.spans.deep_view().take(i as int + 1) =~= self.spans.deep_view()
                    .take(i as int).push(self.spans.deep_view()[i as int]));
                assert(spans.deep_view() =~= self.spans.deep_view().take(i as int + 1));
            }
        }
        proof {
            assert(self.spans.deep_view().take(n as int) =~= self.spans.deep_view());
        }
        let r = Line { spans };
        proof {
            assert(r@.spans =~= self@.spans);
        }
        r
    }
}

} // verus!

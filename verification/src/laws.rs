//! The engine's laws: properties that hold of every run, stated over the
//! spec-level transition model and proved once and for all.

use vstd::prelude::*;

use crate::command::{spec_app_matches, AppRefView, CommandView};
use crate::engine::{
    spec_find_app_from, spec_handle_frame, spec_is_mutating, spec_on_receiver_status, EngineView,
    FrameView, HeartbeatMsg, ReceiverMsgView,
};
use crate::status::{AppDescriptorView, ReceiverStatusView};

verus! {

/// No application from position `i` on matches the reference, so the
/// search from `i` finds nothing.
pub proof fn lemma_find_app_from_none(apps: Seq<AppDescriptorView>, r: AppRefView, i: int)
    requires
        0 <= i <= apps.len(),
        forall|j: int| i <= j < apps.len() ==> !spec_app_matches(r, (#[trigger] apps[j]).app_id),
    ensures
        spec_find_app_from(apps, r, i) is None,
    decreases apps.len() - i,
{
    if i < apps.len() {
        lemma_find_app_from_none(apps, r, i + 1);
    }
}

/// Law: every Receiver status push replaces the engine's cached snapshot
/// wholesale, whatever the phase and the command — in particular, a push
/// with no applications clears a previously non-empty application list,
/// and nothing of the old snapshot survives.
pub proof fn lemma_status_fully_replaced(e: EngineView, s: ReceiverStatusView)
    ensures
        spec_handle_frame(e, FrameView::Receiver(ReceiverMsgView::Status(s))).0.cached == Some(s),
{
}

/// Law: when no application of the pushed status matches the target of a
/// stop or transport-control command, the engine reaches its terminal
/// phase on that push without issuing any mutating channel operation.
pub proof fn lemma_absent_target_terminates_without_mutation(
    e: EngineView,
    s: ReceiverStatusView,
)
    requires
        e.phase is AwaitingStatus,
        match e.command {
            CommandView::StopApp(r) => forall|j: int|
                0 <= j < s.applications.len() ==> !spec_app_matches(
                    r,
                    (#[trigger] s.applications[j]).app_id,
                ),
            CommandView::StopCurrent => s.applications.len() == 0,
            CommandView::MediaTransportControl(_, r) => forall|j: int|
                0 <= j < s.applications.len() ==> !spec_app_matches(
                    r,
                    (#[trigger] s.applications[j]).app_id,
                ),
            _ => false,
        },
    ensures
        spec_on_receiver_status(e, s).0.phase is Done,
        forall|i: int|
            0 <= i < spec_on_receiver_status(e, s).1.len() ==> !spec_is_mutating(
                #[trigger] spec_on_receiver_status(e, s).1[i],
            ),
{
    match e.command {
        CommandView::StopApp(r) => {
            lemma_find_app_from_none(s.applications, r, 0);
        },
        CommandView::MediaTransportControl(_, r) => {
            lemma_find_app_from_none(s.applications, r, 0);
        },
        _ => {},
    }
}

/// Law: a load or stream command whose target application is absent from
/// the pushed status launches it — exactly one launch operation, nothing
/// else — and stays active, waiting for the next push, rather than
/// terminating.
pub proof fn lemma_absent_target_launches_once(e: EngineView, s: ReceiverStatusView)
    requires
        e.phase is AwaitingStatus,
        match e.command {
            CommandView::LoadMedia(q) => forall|j: int|
                0 <= j < s.applications.len() ==> !spec_app_matches(
                    q.app,
                    (#[trigger] s.applications[j]).app_id,
                ),
            CommandView::StreamMedia(q) => forall|j: int|
                0 <= j < s.applications.len() ==> !spec_app_matches(
                    q.app,
                    (#[trigger] s.applications[j]).app_id,
                ),
            _ => false,
        },
    ensures
        spec_on_receiver_status(e, s).0.phase is AwaitingStatus,
        spec_on_receiver_status(e, s).1.len() == 1,
        spec_on_receiver_status(e, s).1[0] is Launch,
{
    match e.command {
        CommandView::LoadMedia(q) => {
            lemma_find_app_from_none(s.applications, q.app, 0);
        },
        CommandView::StreamMedia(q) => {
            lemma_find_app_from_none(s.applications, q.app, 0);
        },
        _ => {},
    }
}

/// Law: a heartbeat ping is answered with exactly one pong, placed
/// before anything else the engine asks for on that frame; and no frame
/// other than a ping ever produces a pong.
pub proof fn lemma_ping_begets_one_pong(e: EngineView, f: FrameView)
    ensures
        f == FrameView::Heartbeat(HeartbeatMsg::Ping) ==> spec_handle_frame(e, f).1.len() >= 1
            && spec_handle_frame(e, f).1[0] is Pong && (forall|i: int|
            1 <= i < spec_handle_frame(e, f).1.len() ==> !(#[trigger] spec_handle_frame(
                e,
                f,
            ).1[i] is Pong)),
        f != FrameView::Heartbeat(HeartbeatMsg::Ping) ==> forall|i: int|
            0 <= i < spec_handle_frame(e, f).1.len() ==> !(#[trigger] spec_handle_frame(
                e,
                f,
            ).1[i] is Pong),
{
    let acts = spec_handle_frame(e, f).1;
    match f {
        FrameView::Receiver(ReceiverMsgView::Status(s)) => {
            lemma_receiver_status_actions_no_pong(e, s);
        },
        FrameView::Media(crate::engine::MediaMsgView::Status(entries)) => {
            lemma_media_status_actions_no_pong(e, entries);
        },
        _ => {},
    }
}

/// No action of a Receiver status transition is a pong.
proof fn lemma_receiver_status_actions_no_pong(e: EngineView, s: ReceiverStatusView)
    ensures
        forall|i: int|
            0 <= i < spec_on_receiver_status(e, s).1.len() ==> !(#[trigger] spec_on_receiver_status(
                e,
                s,
            ).1[i] is Pong),
{
}

/// No action of a Media status transition is a pong.
proof fn lemma_media_status_actions_no_pong(
    e: EngineView,
    entries: Seq<crate::status::MediaStatusEntryView>,
)
    ensures
        forall|i: int|
            0 <= i < crate::engine::spec_on_media_status(e, entries).1.len() ==> !(
            #[trigger] crate::engine::spec_on_media_status(e, entries).1[i] is Pong),
{
}

/// Law: the Info report is a function of the pushed status alone — two
/// Info runs, whatever their histories, print the same lines on equal
/// pushes.
pub proof fn lemma_info_report_deterministic(
    e1: EngineView,
    e2: EngineView,
    s: ReceiverStatusView,
)
    requires
        e1.command is Info,
        e2.command is Info,
        e1.phase is AwaitingStatus,
        e2.phase is AwaitingStatus,
    ensures
        spec_on_receiver_status(e1, s).1 == spec_on_receiver_status(e2, s).1,
{
}

} // verus!

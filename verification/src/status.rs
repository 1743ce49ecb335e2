//! The status model: typed snapshots of receiver and media state.
//!
//! Every inbound Receiver status push carries a complete [`ReceiverStatus`];
//! the engine replaces its cached snapshot wholesale on each push, never
//! merging field by field.  Fractional quantities reported by the device
//! (volume level, playback rate, stream positions) are carried in
//! thousandths, so that the model stays in exact integer arithmetic.

use vstd::prelude::*;

verus! {

/// One running receiver application, as reported in a Receiver status push.
///
/// `transport_id` and `session_id` are opaque handles issued by the device;
/// they address channel operations at this application and may change across
/// relaunches, so no decision may be based on a descriptor from a superseded
/// snapshot.
#[derive(Debug, Clone, PartialEq)]
pub struct AppDescriptor {
    pub app_id: String,
    pub display_name: String,
    pub status_text: String,
    pub session_id: String,
    pub transport_id: String,
}

/// The mathematical value of an [`AppDescriptor`]: each handle as a
/// sequence of characters.
pub struct AppDescriptorView {
    pub app_id: Seq<char>,
    pub display_name: Seq<char>,
    pub status_text: Seq<char>,
    pub session_id: Seq<char>,
    pub transport_id: Seq<char>,
}

impl View for AppDescriptor {
    type V = AppDescriptorView;

    open spec fn view(&self) -> AppDescriptorView {
        AppDescriptorView {
            app_id: self.app_id@,
            display_name: self.display_name@,
            status_text: self.status_text@,
            session_id: self.session_id@,
            transport_id: self.transport_id@,
        }
    }
}

impl DeepView for AppDescriptor {
    type V = AppDescriptorView;

    open spec fn deep_view(&self) -> AppDescriptorView {
        self@
    }
}

impl AppDescriptor {
    /// A field-for-field copy, equal to the original at the model level.
    pub fn duplicate(&self) -> (r: AppDescriptor)
        ensures
            r@ == self@,
    {
        AppDescriptor {
            app_id: self.app_id.clone(),
            display_name: self.display_name.clone(),
            status_text: self.status_text.clone(),
            session_id: self.session_id.clone(),
            transport_id: self.transport_id.clone(),
        }
    }
}

/// Volume as reported by the device.  Either field may be absent when the
/// device does not report it.  `level` is in thousandths of full volume;
/// a well-formed level never exceeds [`VOLUME_FULL`].
#[derive(Debug, Clone, Copy, PartialEq, Eq, Structural)]
pub struct VolumeState {
    pub level: Option<u32>,
    pub muted: Option<bool>,
}

/// Full volume, in the thousandths scale of [`VolumeState::level`].
pub const VOLUME_FULL: u32 = 1000;

/// Media delivery mode of a stream.
#[derive(Debug, Clone, Copy, PartialEq, Eq, Structural)]
pub enum StreamType {
    /// Finite, seekable content that the device buffers before playing.
    Buffered,
    /// Content rendered as soon as any portion arrives.
    Live,
    /// No declared mode; the device chooses.
    Unknown,
}

/// State of the device-side media player.
#[derive(Debug, Clone, Copy, PartialEq, Eq, Structural)]
pub enum PlayerState {
    Idle,
    Playing,
    Buffering,
    Paused,
}

/// Description of one media stream, as carried in a load request or a media
/// status entry.  `duration` is in thousandths of a second.
#[derive(Debug, Clone, PartialEq)]
pub struct MediaInfo {
    pub content_id: String,
    pub content_type: String,
    pub stream_type: StreamType,
    pub duration: Option<u32>,
}

/// The mathematical value of a [`MediaInfo`].
pub struct MediaInfoView {
    pub content_id: Seq<char>,
    pub content_type: Seq<char>,
    pub stream_type: StreamType,
    pub duration: Option<u32>,
}

impl View for MediaInfo {
    type V = MediaInfoView;

    open spec fn view(&self) -> MediaInfoView {
        MediaInfoView {
            content_id: self.content_id@,
            content_type: self.content_type@,
            stream_type: self.stream_type,
            duration: self.duration,
        }
    }
}

impl DeepView for MediaInfo {
    type V = MediaInfoView;

    open spec fn deep_view(&self) -> MediaInfoView {
        self@
    }
}

impl MediaInfo {
    /// A field-for-field copy, equal to the original at the model level.
    pub fn duplicate(&self) -> (r: MediaInfo)
        ensures
            r@ == self@,
    {
        MediaInfo {
            content_id: self.content_id.clone(),
            content_type: self.content_type.clone(),
            stream_type: self.stream_type,
            duration: self.duration,
        }
    }
}

/// One entry of a Media status push: the state of one media session.
/// `playback_rate` and `current_time` are in thousandths (of regular speed
/// and of a second, respectively).
#[derive(Debug, Clone, PartialEq)]
pub struct MediaStatusEntry {
    pub media_session_id: i32,
    pub playback_rate: u32,
    pub player_state: PlayerState,
    pub current_time: Option<u32>,
    pub media: Option<MediaInfo>,
}

/// The mathematical value of a [`MediaStatusEntry`].
pub struct MediaStatusEntryView {
    pub media_session_id: i32,
    pub playback_rate: u32,
    pub player_state: PlayerState,
    pub current_time: Option<u32>,
    pub media: Option<MediaInfoView>,
}

impl View for MediaStatusEntry {
    type V = MediaStatusEntryView;

    open spec fn view(&self) -> MediaStatusEntryView {
        MediaStatusEntryView {
            media_session_id: self.media_session_id,
            playback_rate: self.playback_rate,
            player_state: self.player_state,
            current_time: self.current_time,
            media: self.media.deep_view(),
        }
    }
}

impl DeepView for MediaStatusEntry {
    type V = MediaStatusEntryView;

    open spec fn deep_view(&self) -> MediaStatusEntryView {
        self@
    }
}

/// One complete Receiver status snapshot: the running applications in the
/// order the device reported them (the first entry is the "current"
/// application), plus the volume.
#[derive(Debug, Clone, PartialEq)]
pub struct ReceiverStatus {
    pub applications: Vec<AppDescriptor>,
    pub volume: VolumeState,
}

/// The mathematical value of a [`ReceiverStatus`].
pub struct ReceiverStatusView {
    pub applications: Seq<AppDescriptorView>,
    pub volume: VolumeState,
}

impl View for ReceiverStatus {
    type V = ReceiverStatusView;

    open spec fn view(&self) -> ReceiverStatusView {
        ReceiverStatusView {
            applications: self.applications.deep_view(),
            volume: self.volume,
        }
    }
}

impl DeepView for ReceiverStatus {
    type V = ReceiverStatusView;

    open spec fn deep_view(&self) -> ReceiverStatusView {
        self@
    }
}

} // verus!

//! Commands and application references.
//!
//! Exactly one [`Command`] is active per run.  An [`AppRef`] names a
//! receiver application either by a well-known short name (mapped to its
//! canonical application id) or by a literal application id; the join key
//! between a reference and a reported [`crate::status::AppDescriptor`] is
//! the parse of the descriptor's `app_id`.

use vstd::prelude::*;

use crate::status::StreamType;

verus! {

/// True when the two string slices hold the same characters.
pub fn str_eq(a: &str, b: &str) -> (r: bool)
    ensures
        r == (a@ == b@),
{
    let sa = String::from_str(a);
    let sb = String::from_str(b);
    sa == sb
}

/// A normalized application reference: a well-known application, or a
/// literal application id.
#[derive(Debug, Clone, PartialEq, Eq)]
pub enum AppRef {
    DefaultMediaReceiver,
    Backdrop,
    YouTube,
    Custom(String),
}

/// The mathematical value of an [`AppRef`].
pub enum AppRefView {
    DefaultMediaReceiver,
    Backdrop,
    YouTube,
    Custom(Seq<char>),
}

impl View for AppRef {
    type V = AppRefView;

    open spec fn view(&self) -> AppRefView {
        match self {
            AppRef::DefaultMediaReceiver => AppRefView::DefaultMediaReceiver,
            AppRef::Backdrop => AppRefView::Backdrop,
            AppRef::YouTube => AppRefView::YouTube,
            AppRef::Custom(s) => AppRefView::Custom(s@),
        }
    }
}

impl DeepView for AppRef {
    type V = AppRefView;

    open spec fn deep_view(&self) -> AppRefView {
        self@
    }
}

/// How a name or application id resolves to an [`AppRef`]: the canonical
/// id or the short name of a well-known application resolves to it, and
/// anything else is a literal custom id.
pub open spec fn spec_parse_app_ref(s: Seq<char>) -> AppRefView {
    if s == "CC1AD845"@ || s == "default"@ {
        AppRefView::DefaultMediaReceiver
    } else if s == "E8C28D3C"@ || s == "backdrop"@ {
        AppRefView::Backdrop
    } else if s == "233637DE"@ || s == "youtube"@ {
        AppRefView::YouTube
    } else {
        AppRefView::Custom(s)
    }
}

/// The canonical application id that an [`AppRef`] stands for.
pub open spec fn spec_app_ref_id(r: AppRefView) -> Seq<char> {
    match r {
        AppRefView::DefaultMediaReceiver => "CC1AD845"@,
        AppRefView::Backdrop => "E8C28D3C"@,
        AppRefView::YouTube => "233637DE"@,
        AppRefView::Custom(s) => s,
    }
}

/// A reported application id matches a reference when it resolves to it.
pub open spec fn spec_app_matches(r: AppRefView, app_id: Seq<char>) -> bool {
    spec_parse_app_ref(app_id) == r
}

impl AppRef {
    /// Resolves a name or application id, per [`spec_parse_app_ref`].
    pub fn parse(s: &str) -> (r: AppRef)
        ensures
            r@ == spec_parse_app_ref(s@),
    {
        if str_eq(s, "CC1AD845") || str_eq(s, "default") {
            AppRef::DefaultMediaReceiver
        } else if str_eq(s, "E8C28D3C") || str_eq(s, "backdrop") {
            AppRef::Backdrop
        } else if str_eq(s, "233637DE") || str_eq(s, "youtube") {
            AppRef::YouTube
        } else {
            AppRef::Custom(String::from_str(s))
        }
    }

    /// The canonical application id, per [`spec_app_ref_id`].
    pub fn id_string(&self) -> (r: String)
        ensures
            r@ == spec_app_ref_id(self@),
    {
        match self {
            AppRef::DefaultMediaReceiver => String::from_str("CC1AD845"),
            AppRef::Backdrop => String::from_str("E8C28D3C"),
            AppRef::YouTube => String::from_str("233637DE"),
            AppRef::Custom(s) => s.clone(),
        }
    }

    /// True when the two references stand for the same application.
    pub fn same_as(&self, other: &AppRef) -> (r: bool)
        ensures
            r == (self@ == other@),
    {
        match (self, other) {
            (AppRef::DefaultMediaReceiver, AppRef::DefaultMediaReceiver) => true,
            (AppRef::Backdrop, AppRef::Backdrop) => true,
            (AppRef::YouTube, AppRef::YouTube) => true,
            (AppRef::Custom(a), AppRef::Custom(b)) => str_eq(a.as_str(), b.as_str()),
            _ => false,
        }
    }

    /// True when a reported application id resolves to this reference,
    /// per [`spec_app_matches`].
    pub fn matches_app_id(&self, app_id: &str) -> (r: bool)
        ensures
            r == spec_app_matches(self@, app_id@),
    {
        let parsed = AppRef::parse(app_id);
        parsed.same_as(self)
    }

    /// A copy, equal to the original at the model level.
    pub fn duplicate(&self) -> (r: AppRef)
        ensures
            r@ == self@,
    {
        match self {
            AppRef::DefaultMediaReceiver => AppRef::DefaultMediaReceiver,
            AppRef::Backdrop => AppRef::Backdrop,
            AppRef::YouTube => AppRef::YouTube,
            AppRef::Custom(s) => AppRef::Custom(s.clone()),
        }
    }
}

/// The keyword that selects each delivery mode on the command line.
pub open spec fn spec_stream_type_keyword(t: StreamType) -> Seq<char> {
    match t {
        StreamType::Buffered => "buffered"@,
        StreamType::Live => "live"@,
        StreamType::Unknown => "none"@,
    }
}

/// How a command-line literal resolves to a delivery mode: the three
/// keywords resolve to their mode, and anything else is rejected (a fatal
/// configuration error in the caller).
pub open spec fn spec_parse_stream_type(s: Seq<char>) -> Option<StreamType> {
    if s == "buffered"@ {
        Some(StreamType::Buffered)
    } else if s == "live"@ {
        Some(StreamType::Live)
    } else if s == "none"@ {
        Some(StreamType::Unknown)
    } else {
        None
    }
}

/// Resolves a command-line literal to a delivery mode, per
/// [`spec_parse_stream_type`].
pub fn parse_stream_type(s: &str) -> (r: Option<StreamType>)
    ensures
        r == spec_parse_stream_type(s@),
{
    if str_eq(s, "buffered") {
        Some(StreamType::Buffered)
    } else if str_eq(s, "live") {
        Some(StreamType::Live)
    } else if str_eq(s, "none") {
        Some(StreamType::Unknown)
    } else {
        None
    }
}

/// The three keywords are pairwise distinct.
proof fn lemma_stream_type_keywords_distinct()
    ensures
        "buffered"@ != "live"@,
        "buffered"@ != "none"@,
        "live"@ != "none"@,
{
    reveal_strlit("buffered");
    reveal_strlit("live");
    reveal_strlit("none");
    assert(("buffered"@).len() == 8);
    assert(("live"@).len() == 4);
    assert(("none"@).len() == 4);
    assert(("live"@)[0] == 'l');
    assert(("none"@)[0] == 'n');
    assert("live"@ != "none"@) by {
        if "live"@ == "none"@ {
            assert(("live"@)[0] == ("none"@)[0]);
        }
    }
}

/// Law: every delivery mode is reached by its keyword.
pub proof fn lemma_stream_type_keyword_parses(t: StreamType)
    ensures
        spec_parse_stream_type(spec_stream_type_keyword(t)) == Some(t),
{
    lemma_stream_type_keywords_distinct();
}

/// Law: no two literals resolve to the same delivery mode, so the three
/// keywords map bijectively onto the three modes.
pub proof fn lemma_stream_type_parse_injective(s1: Seq<char>, s2: Seq<char>)
    requires
        spec_parse_stream_type(s1) is Some,
        spec_parse_stream_type(s1) == spec_parse_stream_type(s2),
    ensures
        s1 == s2,
{
    lemma_stream_type_keywords_distinct();
}

/// Law: a literal that resolves at all is the keyword of the mode it
/// resolves to.
pub proof fn lemma_stream_type_accepts_only_keywords(s: Seq<char>, t: StreamType)
    requires
        spec_parse_stream_type(s) == Some(t),
    ensures
        s == spec_stream_type_keyword(t),
{
    lemma_stream_type_keywords_distinct();
}

/// A transport-control action on running media.  The seek position is in
/// thousandths of a second.
#[derive(Debug, Clone, Copy, PartialEq, Eq, Structural)]
pub enum MediaControl {
    Play,
    Pause,
    Stop,
    Seek(u32),
}

/// What to load on a receiver application: the media handle (most often a
/// URL), its MIME type, and the delivery mode.
#[derive(Debug, Clone, PartialEq)]
pub struct LoadRequest {
    pub handle: String,
    pub media_type: String,
    pub stream_type: StreamType,
    pub app: AppRef,
}

/// The mathematical value of a [`LoadRequest`].
pub struct LoadRequestView {
    pub handle: Seq<char>,
    pub media_type: Seq<char>,
    pub stream_type: StreamType,
    pub app: AppRefView,
}

impl View for LoadRequest {
    type V = LoadRequestView;

    open spec fn view(&self) -> LoadRequestView {
        LoadRequestView {
            handle: self.handle@,
            media_type: self.media_type@,
            stream_type: self.stream_type,
            app: self.app@,
        }
    }
}

impl DeepView for LoadRequest {
    type V = LoadRequestView;

    open spec fn deep_view(&self) -> LoadRequestView {
        self@
    }
}

/// The one action a run performs, decided once at startup.
#[derive(Debug, Clone, PartialEq)]
pub enum Command {
    /// Report the receiver's applications and volume.
    Info,
    /// Launch an application, fire-and-forget.
    RunApp(AppRef),
    /// Stop the running application matching the reference.
    StopApp(AppRef),
    /// Stop the currently active (first reported) application.
    StopCurrent,
    /// Set the volume level, in thousandths of full volume.
    SetVolume(u32),
    /// Mute or unmute the device.
    Mute(bool),
    /// Control running media in the referenced application.
    MediaTransportControl(MediaControl, AppRef),
    /// Load media on the referenced application and monitor until the
    /// device confirms it is the loaded content.
    LoadMedia(LoadRequest),
    /// Stream media on the referenced application; sequenced exactly as
    /// [`Command::LoadMedia`], distinguished only by the channel operation
    /// issued.
    StreamMedia(LoadRequest),
}

/// The mathematical value of a [`Command`].
pub enum CommandView {
    Info,
    RunApp(AppRefView),
    StopApp(AppRefView),
    StopCurrent,
    SetVolume(u32),
    Mute(bool),
    MediaTransportControl(MediaControl, AppRefView),
    LoadMedia(LoadRequestView),
    StreamMedia(LoadRequestView),
}

impl View for Command {
    type V = CommandView;

    open spec fn view(&self) -> CommandView {
        match self {
            Command::Info => CommandView::Info,
            Command::RunApp(r) => CommandView::RunApp(r@),
            Command::StopApp(r) => CommandView::StopApp(r@),
            Command::StopCurrent => CommandView::StopCurrent,
            Command::SetVolume(l) => CommandView::SetVolume(*l),
            Command::Mute(m) => CommandView::Mute(*m),
            Command::MediaTransportControl(a, r) => CommandView::MediaTransportControl(*a, r@),
            Command::LoadMedia(q) => CommandView::LoadMedia(q@),
            Command::StreamMedia(q) => CommandView::StreamMedia(q@),
        }
    }
}

impl DeepView for Command {
    type V = CommandView;

    open spec fn deep_view(&self) -> CommandView {
        self@
    }
}

impl LoadRequest {
    /// A copy, equal to the original at the model level.
    pub fn duplicate(&self) -> (r: LoadRequest)
        ensures
            r@ == self@,
    {
        LoadRequest {
            handle: self.handle.clone(),
            media_type: self.media_type.clone(),
            stream_type: self.stream_type,
            app: self.app.duplicate(),
        }
    }
}

impl Command {
    /// A copy, equal to the original at the model level.
    pub fn duplicate(&self) -> (r: Command)
        ensures
            r@ == self@,
    {
        match self {
            Command::Info => Command::Info,
            Command::RunApp(r) => Command::RunApp(r.duplicate()),
            Command::StopApp(r) => Command::StopApp(r.duplicate()),
            Command::StopCurrent => Command::StopCurrent,
            Command::SetVolume(l) => Command::SetVolume(*l),
            Command::Mute(m) => Command::Mute(*m),
            Command::MediaTransportControl(a, r) => Command::MediaTransportControl(
                *a,
                r.duplicate(),
            ),
            Command::LoadMedia(q) => Command::LoadMedia(q.duplicate()),
            Command::StreamMedia(q) => Command::StreamMedia(q.duplicate()),
        }
    }
}

} // verus!

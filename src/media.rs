//! The values that the media service publishes: tracks, covers, playback state and change events.
use vstd::prelude::*;

verus! {

/// A payload-free signal telling subscribers which slice of the service's state to re-read.
#[derive(Clone, Copy, Debug, PartialEq, Eq, Structural)]
pub enum PlaybackChangedEvent {
    TrackChanged,
    Play,
    Pause,
    Volume,
    PlaybackProgress,
}

/// A decoded image: `width * height` pixels of four bytes each (red, green, blue, alpha).
#[derive(Clone, Debug)]
pub struct Bitmap {
    pub width: u32,
    pub height: u32,
    pub pixels: Vec<u8>,
}

/// The cover art of a track.
#[derive(Clone, Debug)]
pub enum AlbumCover {
    /// A reference to a cover that has not been fetched yet.
    Url(String),
    /// A decoded cover.
    Image(Bitmap),
    /// No cover: none was provided, or it could not be read or decoded.
    NoCover,
}

impl AlbumCover {
    pub fn is_none(&self) -> (r: bool)
        ensures
            r == (self is NoCover),
    {
        match self {
            AlbumCover::NoCover => true,
            _ => false,
        }
    }

    /// A short label naming the kind of cover held, for diagnostics.
    pub fn kind_name(&self) -> (r: &'static str)
        ensures
            r@ == (match self {
                AlbumCover::Image(_) => "RgbaImage"@,
                AlbumCover::NoCover => "None"@,
                AlbumCover::Url(_) => "Url"@,
            }),
    {
        proof {
            reveal_strlit("RgbaImage");
            reveal_strlit("None");
            reveal_strlit("Url");
        }
        match self {
            AlbumCover::Image(_) => "RgbaImage",
            AlbumCover::NoCover => "None",
            AlbumCover::Url(_) => "Url",
        }
    }
}

/// A cover as plain values: a reference, an image (width, height, RGBA bytes), or none.
pub enum CoverView {
    Url(Seq<char>),
    Image(u32, u32, Seq<u8>),
    NoCover,
}

impl View for AlbumCover {
    type V = CoverView;

    open spec fn view(&self) -> CoverView {
        match self {
            AlbumCover::Url(u) => CoverView::Url(u@),
            AlbumCover::Image(b) => CoverView::Image(b.width, b.height, b.pixels@),
            AlbumCover::NoCover => CoverView::NoCover,
        }
    }
}

/// A track as plain values.
pub struct TrackView {
    pub title: Seq<char>,
    pub artist: Seq<char>,
    pub album_title: Seq<char>,
    pub cover: CoverView,
    pub length: int,
}

impl View for MediaTrack {
    type V = TrackView;

    open spec fn view(&self) -> TrackView {
        TrackView {
            title: self.title@,
            artist: self.artist@,
            album_title: self.album_title@,
            cover: self.album_cover@,
            length: self.length as int,
        }
    }
}

/// The track that the monitored application currently presents.
#[derive(Clone, Debug)]
pub struct MediaTrack {
    pub title: String,
    pub artist: String,
    pub album_title: String,
    pub album_cover: AlbumCover,
    /// Length in whole seconds; always positive for a present track.
    pub length: u64,
}

/// Whether the monitored application plays, with the volume and progress in percent.
#[derive(Clone, Copy, Debug)]
pub struct PlaybackState {
    pub is_playing: bool,
    pub volume: u32,
    pub progress: Option<u32>,
}

impl Default for PlaybackState {
    fn default() -> (r: PlaybackState)
        ensures
            !r.is_playing,
            r.volume == 0,
            r.progress is None,
    {
        PlaybackState { is_playing: false, volume: 0, progress: None }
    }
}

/// Why a command on the media service failed.
#[derive(Clone, Debug)]
pub enum MediaServiceError {
    /// A call into the platform's session-control API failed with this result code.
    WinRt(i32),
    /// Any other failure, with its description.
    Other(String),
}

/// The transport commands that the platform session accepts.
#[derive(Clone, Copy, Debug, PartialEq, Eq, Structural)]
pub enum TransportCommand {
    SkipNext,
    SkipPrevious,
    Play,
    Pause,
}

/// The states that the platform reports for a session's playback.
#[derive(Clone, Copy, Debug, PartialEq, Eq, Structural)]
pub enum PlaybackStatus {
    Closed,
    Opened,
    Changing,
    Stopped,
    Playing,
    Paused,
}

impl PlaybackStatus {
    /// The status for the platform's numeric code, `None` for a code that it does not document.
    pub fn from_code(code: i32) -> (r: Option<PlaybackStatus>)
        ensures
            r == (if code == 0 {
                Some(PlaybackStatus::Closed)
            } else if code == 1 {
                Some(PlaybackStatus::Opened)
            } else if code == 2 {
                Some(PlaybackStatus::Changing)
            } else if code == 3 {
                Some(PlaybackStatus::Stopped)
            } else if code == 4 {
                Some(PlaybackStatus::Playing)
            } else if code == 5 {
                Some(PlaybackStatus::Paused)
            } else {
                None
            }),
    {
        match code {
            0 => Some(PlaybackStatus::Closed),
            1 => Some(PlaybackStatus::Opened),
            2 => Some(PlaybackStatus::Changing),
            3 => Some(PlaybackStatus::Stopped),
            4 => Some(PlaybackStatus::Playing),
            5 => Some(PlaybackStatus::Paused),
            _ => None,
        }
    }
}

/// Number of 100-nanosecond ticks in one second.
pub const TICKS_PER_SECOND: i64 = 10_000_000;

pub open spec fn ticks_to_seconds(ticks: int) -> int {
    if ticks < 0 {
        0
    } else {
        ticks / 10_000_000
    }
}

/// Converts a duration in 100-nanosecond ticks to whole seconds; negative durations count as zero.
pub fn convert_ticks_to_seconds(ticks: i64) -> (r: u64)
    ensures
        r == ticks_to_seconds(ticks as int),
{
    if ticks < 0 {
        return 0;
    }
    (ticks / TICKS_PER_SECOND) as u64
}

/// The text held by an optional string.
pub open spec fn opt_view(value: Option<String>) -> Option<Seq<char>> {
    match value {
        Some(s) => Some(s@),
        None => None,
    }
}

/// What a text property of the platform reads as: the text itself, or `default`
/// when it could not be read or was empty.
pub open spec fn text_or_default_spec(value: Option<Seq<char>>, default: Seq<char>) -> Seq<char> {
    match value {
        Some(s) => if s.len() > 0 {
            s
        } else {
            default
        },
        None => default,
    }
}

/// Takes a text property that may have failed to be read (`None`) and falls back to
/// `default` where it failed or is empty.
pub fn text_or_default(value: Option<String>, default: &str) -> (r: String)
    ensures
        r@ == text_or_default_spec(opt_view(value), default@),
{
    match value {
        Some(s) => {
            if !s.as_str().is_empty() {
                s
            } else {
                default.to_owned()
            }
        },
        None => default.to_owned(),
    }
}

} // verus!

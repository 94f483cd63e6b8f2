//! The decisions of the media service: which platform session to bind, which callbacks to
//! register and drop, how native snapshots become the current track and playback state, and
//! which change events to publish. The platform calls themselves are made by the caller, which
//! hands the results in and performs what the returned values ask for.
use vstd::prelude::*;
use crate::thumbnail::thumbnail_spec;
use crate::media::{
    opt_view, text_or_default, text_or_default_spec, ticks_to_seconds, convert_ticks_to_seconds,
    AlbumCover, CoverView, MediaTrack, PlaybackChangedEvent, PlaybackState, PlaybackStatus,
    TrackView, TransportCommand,
};

verus! {

/// What `str::to_lowercase` makes of a text.
pub uninterp spec fn lower_of(s: Seq<char>) -> Seq<char>;

/// Relies on `str::to_lowercase`: the case-folded form depends on the characters alone.
#[verifier::external_body]
fn lowercase(s: &str) -> (r: String)
    ensures
        r@ == lower_of(s@),
{
    s.to_lowercase()
}

/// `i` is the first position of `ids` that holds `target`.
pub open spec fn is_first_match(ids: Seq<Seq<char>>, target: Seq<char>, i: int) -> bool {
    &&& 0 <= i < ids.len()
    &&& ids[i] == target
    &&& forall|j: int| 0 <= j < i ==> ids[j] != target
}

/// The first position of `ids` that holds `target`, if any.
pub open spec fn first_match(ids: Seq<Seq<char>>, target: Seq<char>) -> Option<int> {
    if exists|i: int| is_first_match(ids, target, i) {
        Some(choose|i: int| is_first_match(ids, target, i))
    } else {
        None
    }
}

/// The texts of a list of strings.
pub open spec fn texts(ids: Seq<String>) -> Seq<Seq<char>> {
    ids.map_values(|s: String| s@)
}

/// The case-folded texts of a list of strings.
pub open spec fn folded(ids: Seq<String>) -> Seq<Seq<char>> {
    ids.map_values(|s: String| lower_of(s@))
}

pub open spec fn opt_usize(r: Option<usize>) -> Option<int> {
    match r {
        Some(i) => Some(i as int),
        None => None,
    }
}

proof fn lemma_first_match_unique(ids: Seq<Seq<char>>, target: Seq<char>, i: int)
    requires
        is_first_match(ids, target, i),
    ensures
        first_match(ids, target) == Some(i),
{
    let k = choose|k: int| is_first_match(ids, target, k);
    assert(is_first_match(ids, target, k));
    if k < i {
        assert(ids[k] != target);
    } else if i < k {
        assert(ids[i] != target);
    }
}

/// Finds the first of `ids` that equals `target`, where both are already case-folded.
pub fn first_matching(ids: &Vec<String>, target: &String) -> (r: Option<usize>)
    ensures
        opt_usize(r) == first_match(texts(ids@), target@),
{
    let mut i: usize = 0;
    while i < ids.len()
        invariant
            0 <= i <= ids.len(),
            forall|j: int| 0 <= j < i ==> texts(ids@)[j] != target@,
        decreases ids.len() - i,
    {
        if ids[i].eq(target) {
            proof {
                lemma_first_match_unique(texts(ids@), target@, i as int);
            }
            return Some(i);
        }
        i = i + 1;
    }
    proof {
        assert forall|k: int| !is_first_match(texts(ids@), target@, k) by {
            if 0 <= k < ids.len() {
                assert(texts(ids@)[k] != target@);
            }
        }
    }
    None
}

/// Case-folds each of `ids`.
pub fn fold_all(ids: &Vec<String>) -> (r: Vec<String>)
    ensures
        texts(r@) == folded(ids@),
{
    let mut r: Vec<String> = Vec::new();
    let mut i: usize = 0;
    while i < ids.len()
        invariant
            0 <= i <= ids.len(),
            r@.len() == i,
            forall|j: int| 0 <= j < i ==> r@[j]@ == lower_of(ids@[j]@),
        decreases ids.len() - i,
    {
        let f = lowercase(ids[i].as_str());
        r.push(f);
        i = i + 1;
    }
    assert(texts(r@) =~= folded(ids@));
    r
}

/// What a bound session needs undone: the callback registrations to remove from it.
#[derive(Clone, Copy, Debug, PartialEq, Eq, Structural)]
pub struct Unregistration {
    pub metadata_token: Option<i64>,
    pub playback_token: Option<i64>,
}

/// The outcome of an enumeration of the platform's sessions.
#[derive(Clone, Copy, Debug, PartialEq, Eq, Structural)]
pub enum SessionsUpdate {
    /// The session at this position of the enumeration is now bound: register its
    /// metadata and playback callbacks and sync its current state.
    Bind(usize),
    /// The bound session is still enumerated; nothing to do.
    Unchanged,
    /// The bound session is gone: remove these registrations from it and drop it.
    Unbind(Unregistration),
    /// No session matches and none was bound; nothing to do.
    Idle,
}

/// One reading of a session's media properties, as the platform delivered it.
/// A text property that could not be read is `None`.
#[derive(Clone, Debug)]
pub struct MediaSnapshot {
    pub title: Option<String>,
    pub artist: Option<String>,
    pub album_title: Option<String>,
    /// The timeline's duration in 100-nanosecond ticks.
    pub duration_ticks: i64,
    pub album_cover: AlbumCover,
}

/// The track that a snapshot describes, with the fallbacks for unreadable texts.
pub open spec fn track_of(s: MediaSnapshot) -> TrackView {
    TrackView {
        title: text_or_default_spec(opt_view(s.title), "No Title"@),
        artist: text_or_default_spec(opt_view(s.artist), "No Artist"@),
        album_title: text_or_default_spec(opt_view(s.album_title), "No Title"@),
        cover: s.album_cover@,
        length: ticks_to_seconds(s.duration_ticks as int),
    }
}

/// The state of the service as plain values.
pub struct ServiceView {
    /// The case-folded identifier of the application to monitor.
    pub source_app_id: Seq<char>,
    pub sessions_changed_token: Option<i64>,
    pub metadata_token: Option<i64>,
    pub playback_token: Option<i64>,
    pub session_bound: bool,
    pub current_track: Option<TrackView>,
    pub playback: PlaybackState,
    /// Events emitted and not yet handed to the event bus, oldest first.
    pub events: Seq<PlaybackChangedEvent>,
}

impl ServiceView {
    /// Registrations and state exist only while a session is bound; a present track has a
    /// positive length.
    pub open spec fn wf(self) -> bool {
        &&& !self.session_bound ==> {
            &&& self.metadata_token is None
            &&& self.playback_token is None
            &&& self.current_track is None
            &&& !self.playback.is_playing
        }
        &&& self.current_track matches Some(t) ==> t.length > 0
    }
}

/// The state after the bound session, if any, is let go: its registrations are dropped, the
/// track cleared, playback stopped and one `TrackChanged` emitted. Without one, nothing changes.
pub open spec fn unbound(v: ServiceView) -> ServiceView {
    if v.session_bound {
        ServiceView {
            metadata_token: None,
            playback_token: None,
            session_bound: false,
            current_track: None,
            playback: PlaybackState { is_playing: false, ..v.playback },
            events: v.events.push(PlaybackChangedEvent::TrackChanged),
            ..v
        }
    } else {
        v
    }
}

/// What a metadata notification does: with a bound session, the track becomes the
/// snapshot's (or none, for a length under one second) and one `TrackChanged` is emitted.
pub open spec fn after_metadata(v: ServiceView, s: MediaSnapshot) -> ServiceView {
    if v.session_bound {
        ServiceView {
            current_track: if ticks_to_seconds(s.duration_ticks as int) > 0 {
                Some(track_of(s))
            } else {
                None
            },
            events: v.events.push(PlaybackChangedEvent::TrackChanged),
            ..v
        }
    } else {
        v
    }
}

/// What a playback notification does: with a bound session, the application plays exactly
/// when the status is `Playing`, and one `Play` or `Pause` is emitted accordingly.
pub open spec fn after_playback(v: ServiceView, status: PlaybackStatus) -> ServiceView {
    after_playing(v, status == PlaybackStatus::Playing)
}

/// What a playback reading that says whether the application plays does: with a bound
/// session, the flag is taken over and one `Play` or `Pause` is emitted accordingly.
pub open spec fn after_playing(v: ServiceView, playing: bool) -> ServiceView {
    if v.session_bound {
        ServiceView {
            playback: PlaybackState { is_playing: playing, ..v.playback },
            events: v.events.push(
                if playing {
                    PlaybackChangedEvent::Play
                } else {
                    PlaybackChangedEvent::Pause
                },
            ),
            ..v
        }
    } else {
        v
    }
}

/// Whether a numeric status code of the platform means playing: only the code of `Playing`
/// (4) does; any other, documented or not, means not playing.
pub open spec fn code_means_playing(code: i32) -> bool {
    code == 4
}

/// What an enumeration of sessions with identifiers `ids` does.
pub open spec fn after_sessions(v: ServiceView, ids: Seq<String>) -> (SessionsUpdate, ServiceView) {
    after_folded_sessions(v, folded(ids))
}

/// What an enumeration does, given its case-folded identifiers: the first that equals the
/// target is bound if nothing is; a bound session that is no longer listed is let go.
pub open spec fn after_folded_sessions(v: ServiceView, folded_ids: Seq<Seq<char>>) -> (SessionsUpdate, ServiceView) {
    match first_match(folded_ids, v.source_app_id) {
        Some(i) => if v.session_bound {
            (SessionsUpdate::Unchanged, v)
        } else {
            (SessionsUpdate::Bind(i as usize), ServiceView { session_bound: true, ..v })
        },
        None => if v.session_bound {
            (
                SessionsUpdate::Unbind(
                    Unregistration { metadata_token: v.metadata_token, playback_token: v.playback_token },
                ),
                unbound(v),
            )
        } else {
            (SessionsUpdate::Idle, v)
        },
    }
}

/// The command that a transport request becomes: sent to the bound session, or nothing at all.
pub open spec fn command_for(v: ServiceView, c: TransportCommand) -> Option<TransportCommand> {
    if v.session_bound {
        Some(c)
    } else {
        None
    }
}

/// Monitors one application's media session on the platform's session-control API.
pub struct WindowsMediaService {
    source_app_id: String,
    sessions_changed_handler: Option<i64>,
    media_properties_changed_handler: Option<i64>,
    media_playback_changed_handler: Option<i64>,
    session_bound: bool,
    current_track: Option<MediaTrack>,
    playback_state: PlaybackState,
    pending_events: Vec<PlaybackChangedEvent>,
}

impl View for WindowsMediaService {
    type V = ServiceView;

    closed spec fn view(&self) -> ServiceView {
        ServiceView {
            source_app_id: self.source_app_id@,
            sessions_changed_token: self.sessions_changed_handler,
            metadata_token: self.media_properties_changed_handler,
            playback_token: self.media_playback_changed_handler,
            session_bound: self.session_bound,
            current_track: match self.current_track {
                Some(t) => Some(t@),
                None => None,
            },
            playback: self.playback_state,
            events: self.pending_events@,
        }
    }
}

impl WindowsMediaService {
    /// A service for the application identified by `source_app_id` (on Windows the
    /// executable's file name), matched without regard to case. Nothing is monitored yet.
    pub fn new(source_app_id: &str) -> (r: WindowsMediaService)
        ensures
            r@.wf(),
            r@.source_app_id == lower_of(source_app_id@),
            (r@.sessions_changed_token is None),
            !r@.session_bound,
            r@.playback == (PlaybackState { is_playing: false, volume: 0, progress: None }),
            r@.events.len() == 0,
    {
        WindowsMediaService {
            source_app_id: lowercase(source_app_id),
            sessions_changed_handler: None,
            media_properties_changed_handler: None,
            media_playback_changed_handler: None,
            session_bound: false,
            current_track: None,
            playback_state: PlaybackState { is_playing: false, volume: 0, progress: None },
            pending_events: Vec::new(),
        }
    }

    fn send_event(&mut self, ev: PlaybackChangedEvent)
        ensures
            final(self)@ == (ServiceView { events: old(self)@.events.push(ev), ..old(self)@ }),
    {
        self.pending_events.push(ev);
    }

    /// Hands out the events emitted since the last call, oldest first, for the event bus.
    pub fn take_events(&mut self) -> (r: Vec<PlaybackChangedEvent>)
        ensures
            r@ == old(self)@.events,
            final(self)@ == (ServiceView { events: Seq::empty(), ..old(self)@ }),
    {
        let mut taken: Vec<PlaybackChangedEvent> = Vec::new();
        std::mem::swap(&mut taken, &mut self.pending_events);
        taken
    }

    /// Starts monitoring with the sessions enumerated as `app_ids`. Returns `None`, changing
    /// nothing, when monitoring has already started; else the outcome of that enumeration,
    /// after which the caller registers for "sessions changed" and reports the registration
    /// with `sessions_changed_registered`.
    pub fn begin_monitor_sessions(&mut self, app_ids: &Vec<String>) -> (r: Option<SessionsUpdate>)
        requires
            old(self)@.wf(),
        ensures
            final(self)@.wf(),
            old(self)@.sessions_changed_token is Some ==> r is None && final(self)@ == old(self)@,
            old(self)@.sessions_changed_token is None ==> r == Some(after_sessions(old(self)@, app_ids@).0)
                && final(self)@ == after_sessions(old(self)@, app_ids@).1,
    {
        if self.sessions_changed_handler.is_some() {
            return None;
        }
        Some(self.update_sessions(app_ids))
    }

    /// Records the registration for "sessions changed". Returns `false`, changing nothing,
    /// when one is recorded already: the caller then removes the new one.
    pub fn sessions_changed_registered(&mut self, token: i64) -> (r: bool)
        requires
            old(self)@.wf(),
        ensures
            final(self)@.wf(),
            r == (old(self)@.sessions_changed_token is None),
            final(self)@ == (if r {
                ServiceView { sessions_changed_token: Some(token), ..old(self)@ }
            } else {
                old(self)@
            }),
    {
        if self.sessions_changed_handler.is_some() {
            return false;
        }
        self.sessions_changed_handler = Some(token);
        true
    }

    /// Reconciles the binding with the sessions that the platform enumerates, given by their
    /// application identifiers in enumeration order. The first whose identifier matches the
    /// configured one without regard to case is the target.
    pub fn update_sessions(&mut self, app_ids: &Vec<String>) -> (r: SessionsUpdate)
        requires
            old(self)@.wf(),
        ensures
            final(self)@.wf(),
            (r, final(self)@) == after_sessions(old(self)@, app_ids@),
    {
        let folded_ids = fold_all(app_ids);
        self.update_folded_sessions(&folded_ids)
    }

    /// `update_sessions` on identifiers that are already case-folded.
    pub fn update_folded_sessions(&mut self, folded_ids: &Vec<String>) -> (r: SessionsUpdate)
        requires
            old(self)@.wf(),
        ensures
            final(self)@.wf(),
            (r, final(self)@) == after_folded_sessions(old(self)@, texts(folded_ids@)),
    {
        let found = first_matching(folded_ids, &self.source_app_id);
        match found {
            Some(i) => {
                if self.session_bound {
                    SessionsUpdate::Unchanged
                } else {
                    self.session_bound = true;
                    SessionsUpdate::Bind(i)
                }
            },
            None => {
                match self.end_monitor_source_session() {
                    Some(u) => SessionsUpdate::Unbind(u),
                    None => SessionsUpdate::Idle,
                }
            },
        }
    }

    /// Whether the bound session still lacks its metadata and playback callbacks.
    pub fn begin_monitor_source_session(&self) -> (r: bool)
        ensures
            r == (self@.session_bound && self@.metadata_token is None && self@.playback_token is None),
    {
        self.session_bound && self.media_properties_changed_handler.is_none()
            && self.media_playback_changed_handler.is_none()
    }

    /// Records the metadata and playback registrations of the bound session. Returns `false`,
    /// changing nothing, when no session is bound or it has registrations already: the caller
    /// then removes the new ones.
    pub fn source_session_registered(&mut self, metadata_token: i64, playback_token: i64) -> (r: bool)
        requires
            old(self)@.wf(),
        ensures
            final(self)@.wf(),
            r == (old(self)@.session_bound && old(self)@.metadata_token is None
                && old(self)@.playback_token is None),
            final(self)@ == (if r {
                ServiceView {
                    metadata_token: Some(metadata_token),
                    playback_token: Some(playback_token),
                    ..old(self)@
                }
            } else {
                old(self)@
            }),
    {
        if !self.begin_monitor_source_session() {
            return false;
        }
        self.media_properties_changed_handler = Some(metadata_token);
        self.media_playback_changed_handler = Some(playback_token);
        true
    }

    /// Applies a fresh reading of the bound session's media properties and emits
    /// `TrackChanged`; does nothing when no session is bound.
    pub fn update_current_session_info(&mut self, snapshot: MediaSnapshot)
        requires
            old(self)@.wf(),
        ensures
            final(self)@.wf(),
            final(self)@ == after_metadata(old(self)@, snapshot),
    {
        if !self.session_bound {
            return;
        }
        let ghost s = snapshot;
        let title_length = convert_ticks_to_seconds(snapshot.duration_ticks);
        let track = if title_length > 0 {
            Some(
                MediaTrack {
                    album_title: text_or_default(snapshot.album_title, "No Title"),
                    artist: text_or_default(snapshot.artist, "No Artist"),
                    title: text_or_default(snapshot.title, "No Title"),
                    length: title_length,
                    album_cover: snapshot.album_cover,
                },
            )
        } else {
            None
        };
        self.current_track = track;
        self.send_event(PlaybackChangedEvent::TrackChanged);
        assert(self@ == after_metadata(old(self)@, s));
    }

    /// Applies a fresh reading of the bound session's playback status and emits `Play` or
    /// `Pause`; does nothing when no session is bound.
    pub fn update_playback_info(&mut self, status: PlaybackStatus)
        requires
            old(self)@.wf(),
        ensures
            final(self)@.wf(),
            final(self)@ == after_playback(old(self)@, status),
    {
        self.apply_playing(status == PlaybackStatus::Playing);
    }

    /// `update_playback_info` for a status given by the platform's numeric code; a code that
    /// the platform does not document counts as not playing.
    pub fn update_playback_code(&mut self, code: i32)
        requires
            old(self)@.wf(),
        ensures
            final(self)@.wf(),
            final(self)@ == after_playing(old(self)@, code_means_playing(code)),
    {
        let playing = match PlaybackStatus::from_code(code) {
            Some(PlaybackStatus::Playing) => true,
            _ => false,
        };
        self.apply_playing(playing);
    }

    fn apply_playing(&mut self, playing: bool)
        requires
            old(self)@.wf(),
        ensures
            final(self)@.wf(),
            final(self)@ == after_playing(old(self)@, playing),
    {
        if !self.session_bound {
            return;
        }
        self.playback_state.is_playing = playing;
        self.send_event(
            if playing {
                PlaybackChangedEvent::Play
            } else {
                PlaybackChangedEvent::Pause
            },
        );
    }

    /// Stops monitoring the session list. Returns the "sessions changed" registration for
    /// the caller to remove, if there was one.
    pub fn end_monitor_sessions(&mut self) -> (r: Option<i64>)
        requires
            old(self)@.wf(),
        ensures
            final(self)@.wf(),
            r == old(self)@.sessions_changed_token,
            final(self)@ == (ServiceView { sessions_changed_token: None, ..old(self)@ }),
    {
        let r = self.sessions_changed_handler;
        self.sessions_changed_handler = None;
        r
    }

    /// Lets the bound session go: its registrations are returned for the caller to remove,
    /// the track is cleared and `TrackChanged` emitted. Without a bound session, returns
    /// `None` and changes nothing.
    pub fn end_monitor_source_session(&mut self) -> (r: Option<Unregistration>)
        requires
            old(self)@.wf(),
        ensures
            final(self)@.wf(),
            r == (if old(self)@.session_bound {
                Some(
                    Unregistration {
                        metadata_token: old(self)@.metadata_token,
                        playback_token: old(self)@.playback_token,
                    },
                )
            } else {
                None
            }),
            final(self)@ == unbound(old(self)@),
    {
        if !self.session_bound {
            return None;
        }
        let u = Unregistration {
            metadata_token: self.media_properties_changed_handler,
            playback_token: self.media_playback_changed_handler,
        };
        self.media_properties_changed_handler = None;
        self.media_playback_changed_handler = None;
        self.session_bound = false;
        self.current_track = None;
        self.playback_state.is_playing = false;
        self.send_event(PlaybackChangedEvent::TrackChanged);
        Some(u)
    }

    /// Ends all monitoring before the service goes away: returns every live registration
    /// for the caller to remove, and leaves none behind.
    pub fn shut_down(&mut self) -> (r: (Option<i64>, Option<Unregistration>))
        requires
            old(self)@.wf(),
        ensures
            final(self)@.wf(),
            r.0 == old(self)@.sessions_changed_token,
            r.1 == (if old(self)@.session_bound {
                Some(
                    Unregistration {
                        metadata_token: old(self)@.metadata_token,
                        playback_token: old(self)@.playback_token,
                    },
                )
            } else {
                None
            }),
            final(self)@ == unbound((ServiceView { sessions_changed_token: None, ..old(self)@ })),
            (final(self)@.sessions_changed_token is None),
            (final(self)@.metadata_token is None),
            (final(self)@.playback_token is None),
    {
        let s = self.end_monitor_sessions();
        let u = self.end_monitor_source_session();
        (s, u)
    }

    /// Changes the monitored application. When its case-folded identifier differs from the
    /// current one, the bound session, if any, is let go (see `end_monitor_source_session`)
    /// so that the next enumeration binds the new target.
    pub fn set_source_app_id(&mut self, app_id: &str) -> (r: Option<Unregistration>)
        requires
            old(self)@.wf(),
        ensures
            final(self)@.wf(),
            final(self)@.source_app_id == lower_of(app_id@),
            lower_of(app_id@) == old(self)@.source_app_id ==> r is None && final(self)@ == old(self)@,
            lower_of(app_id@) != old(self)@.source_app_id ==> {
                &&& r == (if old(self)@.session_bound {
                    Some(
                        Unregistration {
                            metadata_token: old(self)@.metadata_token,
                            playback_token: old(self)@.playback_token,
                        },
                    )
                } else {
                    None
                })
                &&& final(self)@ == ServiceView { source_app_id: lower_of(app_id@), ..unbound(old(self)@) }
            },
    {
        let id = lowercase(app_id);
        if id.eq(&self.source_app_id) {
            return None;
        }
        let r = self.end_monitor_source_session();
        self.source_app_id = id;
        r
    }

    /// The case-folded identifier of the monitored application.
    pub fn get_source_app_id(&self) -> (r: &str)
        ensures
            r@ == self@.source_app_id,
    {
        self.source_app_id.as_str()
    }

    pub fn current_track(&self) -> (r: Option<&MediaTrack>)
        ensures
            match r {
                Some(t) => self@.current_track == Some(t@),
                None => self@.current_track is None,
            },
    {
        self.current_track.as_ref()
    }

    pub fn current_playback_state(&self) -> (r: &PlaybackState)
        ensures
            *r == self@.playback,
    {
        &self.playback_state
    }

    /// Whether a session is bound.
    pub fn has_session(&self) -> (r: bool)
        ensures
            r == self@.session_bound,
    {
        self.session_bound
    }

    /// The command that skips to the next track, for the bound session; `None` (success with
    /// nothing to send) when no session is bound.
    pub fn next_track(&self) -> (r: Option<TransportCommand>)
        ensures
            r == command_for(self@, TransportCommand::SkipNext),
    {
        self.command(TransportCommand::SkipNext)
    }

    /// The command that returns to the previous track; see `next_track`.
    pub fn previous_track(&self) -> (r: Option<TransportCommand>)
        ensures
            r == command_for(self@, TransportCommand::SkipPrevious),
    {
        self.command(TransportCommand::SkipPrevious)
    }

    /// The command that starts or resumes playback; see `next_track`.
    pub fn play(&self) -> (r: Option<TransportCommand>)
        ensures
            r == command_for(self@, TransportCommand::Play),
    {
        self.command(TransportCommand::Play)
    }

    /// The command that pauses playback; see `next_track`.
    pub fn pause(&self) -> (r: Option<TransportCommand>)
        ensures
            r == command_for(self@, TransportCommand::Pause),
    {
        self.command(TransportCommand::Pause)
    }

    /// Seeking is not offered by the platform's session API: always nothing to send.
    pub fn seek(&self, playback_percent: u32) -> (r: Option<TransportCommand>)
        ensures
            (r is None),
    {
        None
    }

    /// Per-application volume is not offered by the platform's session API: always nothing
    /// to send.
    pub fn set_volume(&self, volume: u32) -> (r: Option<TransportCommand>)
        ensures
            (r is None),
    {
        None
    }

    /// Pauses when playing and plays otherwise: exactly one of the two.
    pub fn toggle_playback(&self) -> (r: Option<TransportCommand>)
        ensures
            r == (if self@.playback.is_playing {
                command_for(self@, TransportCommand::Pause)
            } else {
                command_for(self@, TransportCommand::Play)
            }),
    {
        if self.playback_state.is_playing {
            self.pause()
        } else {
            self.play()
        }
    }

    fn command(&self, c: TransportCommand) -> (r: Option<TransportCommand>)
        ensures
            r == command_for(self@, c),
    {
        if self.session_bound {
            Some(c)
        } else {
            None
        }
    }
}

/// The event that a playback status is announced with.
pub open spec fn playback_event(status: PlaybackStatus) -> PlaybackChangedEvent {
    if status == PlaybackStatus::Playing {
        PlaybackChangedEvent::Play
    } else {
        PlaybackChangedEvent::Pause
    }
}

/// The state with `id` configured as the application to monitor.
pub open spec fn with_target(v: ServiceView, id: Seq<char>) -> ServiceView {
    ServiceView { source_app_id: lower_of(id), ..v }
}

/// Matching ignores case on both sides: two configured identifiers with the same case-folded
/// form, checked against two enumerations whose identifiers fold alike, bind the same session
/// and change the state alike.
pub proof fn lemma_binding_ignores_case(
    v: ServiceView,
    a: Seq<char>,
    b: Seq<char>,
    ids1: Seq<String>,
    ids2: Seq<String>,
)
    requires
        lower_of(a) == lower_of(b),
        folded(ids1) == folded(ids2),
    ensures
        after_sessions(with_target(v, a), ids1) == after_sessions(with_target(v, b), ids2),
{
}

/// The session bound for a configured identifier `id` is the first enumerated one whose
/// case-folded identifier equals the case-folded `id`.
pub proof fn lemma_binds_first_case_insensitive_match(
    v: ServiceView,
    id: Seq<char>,
    ids: Seq<String>,
    j: int,
)
    requires
        !v.session_bound,
        is_first_match(folded(ids), lower_of(id), j),
    ensures
        after_sessions(with_target(v, id), ids).0 == SessionsUpdate::Bind(j as usize),
        after_sessions(with_target(v, id), ids).1.session_bound,
{
    lemma_first_match_unique(folded(ids), lower_of(id), j);
}

/// With no session bound there is no track, nothing plays, every command is a success with
/// nothing sent to the platform, and notifications change nothing.
pub proof fn lemma_unbound_is_quiet(v: ServiceView, s: MediaSnapshot, status: PlaybackStatus)
    requires
        v.wf(),
        !v.session_bound,
    ensures
        v.current_track is None,
        !v.playback.is_playing,
        forall|c: TransportCommand| (#[trigger] command_for(v, c)) is None,
        after_metadata(v, s) == v,
        after_playback(v, status) == v,
{
}

/// A metadata and a playback notification for a bound session each emit exactly one event,
/// in the order they are handled, and either order ends in the same track and playback state.
pub proof fn lemma_notifications_commute(v: ServiceView, s: MediaSnapshot, status: PlaybackStatus)
    requires
        v.wf(),
        v.session_bound,
    ensures
        after_playback(after_metadata(v, s), status).events == v.events.push(
            PlaybackChangedEvent::TrackChanged,
        ).push(playback_event(status)),
        after_metadata(after_playback(v, status), s).events == v.events.push(
            playback_event(status),
        ).push(PlaybackChangedEvent::TrackChanged),
        (ServiceView { events: v.events, ..after_playback(after_metadata(v, s), status) }) == (
        ServiceView { events: v.events, ..after_metadata(after_playback(v, status), s) }),
{
}

/// A track whose length converts to zero seconds is no track.
pub proof fn lemma_zero_length_is_no_track(v: ServiceView, s: MediaSnapshot)
    requires
        v.session_bound,
        ticks_to_seconds(s.duration_ticks as int) == 0,
    ensures
        after_metadata(v, s).current_track is None,
{
}

/// A thumbnail that cannot be read, or is delivered short, leaves the cover empty and the
/// rest of the track (texts and length) refreshed from the snapshot all the same.
pub proof fn lemma_bad_thumbnail_keeps_track(
    v: ServiceView,
    s: MediaSnapshot,
    readable: bool,
    declared_size: u64,
    data: Seq<u8>,
)
    requires
        v.session_bound,
        ticks_to_seconds(s.duration_ticks as int) > 0,
        s.album_cover@ == thumbnail_spec(readable, declared_size, data),
        !readable || data.len() != declared_size,
    ensures
        after_metadata(v, s).current_track == Some(
            TrackView { cover: CoverView::NoCover, ..track_of(s) },
        ),
        after_metadata(v, s).events == v.events.push(PlaybackChangedEvent::TrackChanged),
{
}

/// When the target disappears from the enumeration, the bound session's registrations are
/// handed back for removal, none stays recorded, the track is cleared and exactly one
/// `TrackChanged` is emitted.
pub proof fn lemma_unbinding(v: ServiceView, ids: Seq<String>)
    requires
        v.wf(),
        v.session_bound,
        first_match(folded(ids), v.source_app_id) is None,
    ensures
        after_sessions(v, ids).0 == SessionsUpdate::Unbind(
            Unregistration { metadata_token: v.metadata_token, playback_token: v.playback_token },
        ),
        after_sessions(v, ids).1.current_track is None,
        after_sessions(v, ids).1.metadata_token is None,
        after_sessions(v, ids).1.playback_token is None,
        !after_sessions(v, ids).1.session_bound,
        after_sessions(v, ids).1.events == v.events.push(PlaybackChangedEvent::TrackChanged),
{
}

} // verus!

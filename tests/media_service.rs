use spotick::media::{
    convert_ticks_to_seconds, text_or_default, AlbumCover, PlaybackChangedEvent, PlaybackStatus,
    TransportCommand,
};
use spotick::service::{
    first_matching, fold_all, MediaSnapshot, SessionsUpdate, Unregistration, WindowsMediaService,
};
use spotick::thumbnail::{cover_from_decoded, read_thumbnail};

const TINY_PNG: [u8; 71] = [
    137, 80, 78, 71, 13, 10, 26, 10, 0, 0, 0, 13, 73, 72, 68, 82, 0, 0, 0, 2, 0, 0, 0, 1, 8, 6,
    0, 0, 0, 244, 34, 127, 138, 0, 0, 0, 14, 73, 68, 65, 84, 120, 156, 99, 248, 207, 192, 0, 66,
    13, 0, 15, 122, 3, 126, 119, 233, 127, 151, 0, 0, 0, 0, 73, 69, 78, 68, 174, 66, 96, 130,
];

fn ids(names: &[&str]) -> Vec<String> {
    names.iter().map(|s| s.to_string()).collect()
}

fn snapshot(title: Option<&str>, artist: Option<&str>, album: Option<&str>, ticks: i64) -> MediaSnapshot {
    MediaSnapshot {
        title: title.map(|s| s.to_string()),
        artist: artist.map(|s| s.to_string()),
        album_title: album.map(|s| s.to_string()),
        duration_ticks: ticks,
        album_cover: AlbumCover::NoCover,
    }
}

/// A service bound to "spotify.exe" with both callbacks registered as tokens 11 and 12.
fn bound_service() -> WindowsMediaService {
    let mut srv = WindowsMediaService::new("Spotify.exe");
    assert_eq!(srv.update_sessions(&ids(&["chrome.exe", "Spotify.exe"])), SessionsUpdate::Bind(1));
    assert!(srv.begin_monitor_source_session());
    assert!(srv.source_session_registered(11, 12));
    srv
}

#[test]
fn ticks_convert_to_whole_seconds() {
    assert_eq!(convert_ticks_to_seconds(100_000_000), 10);
    assert_eq!(convert_ticks_to_seconds(9_999_999), 0);
    assert_eq!(convert_ticks_to_seconds(0), 0);
    assert_eq!(convert_ticks_to_seconds(-1), 0);
    assert_eq!(convert_ticks_to_seconds(i64::MIN), 0);
    assert_eq!(convert_ticks_to_seconds(i64::MAX), 922_337_203_685);
}

#[test]
fn text_falls_back_when_missing_or_empty() {
    assert_eq!(text_or_default(Some("Song".to_string()), "No Title"), "Song");
    assert_eq!(text_or_default(Some(String::new()), "No Title"), "No Title");
    assert_eq!(text_or_default(None, "No Artist"), "No Artist");
}

#[test]
fn source_app_id_is_case_folded() {
    let srv = WindowsMediaService::new("Spotify.EXE");
    assert_eq!(srv.get_source_app_id(), "spotify.exe");
}

#[test]
fn matching_ignores_case() {
    let enumerated = ids(&["chrome.exe", "SPOTIFY.exe", "spotify.exe"]);
    let mut upper = WindowsMediaService::new("Spotify.exe");
    let mut lower = WindowsMediaService::new("spotify.exe");
    assert_eq!(upper.update_sessions(&enumerated), SessionsUpdate::Bind(1));
    assert_eq!(lower.update_sessions(&enumerated), SessionsUpdate::Bind(1));
}

#[test]
fn first_matching_takes_the_first() {
    let folded = fold_all(&ids(&["A", "b", "B"]));
    assert_eq!(folded, ids(&["a", "b", "b"]));
    assert_eq!(first_matching(&folded, &"b".to_string()), Some(1));
    assert_eq!(first_matching(&folded, &"c".to_string()), None);
    assert_eq!(first_matching(&Vec::new(), &"a".to_string()), None);
}

#[test]
fn begin_monitor_sessions_is_idempotent() {
    let mut srv = WindowsMediaService::new("spotify.exe");
    let first = srv.begin_monitor_sessions(&ids(&["spotify.exe"]));
    assert_eq!(first, Some(SessionsUpdate::Bind(0)));
    assert!(srv.sessions_changed_registered(5));
    assert_eq!(srv.begin_monitor_sessions(&ids(&["spotify.exe"])), None);
    assert!(!srv.sessions_changed_registered(6));
    assert!(srv.has_session());
    assert!(srv.take_events().is_empty());
}

#[test]
fn binding_is_kept_while_enumerated() {
    let mut srv = bound_service();
    assert_eq!(srv.update_sessions(&ids(&["Spotify.exe"])), SessionsUpdate::Unchanged);
    assert!(!srv.begin_monitor_source_session());
    assert!(!srv.source_session_registered(21, 22));
}

#[test]
fn metadata_becomes_the_current_track() {
    let mut srv = bound_service();
    srv.update_current_session_info(snapshot(Some("Song"), None, Some(""), 100_000_000));
    let track = srv.current_track().expect("track present");
    assert_eq!(track.title, "Song");
    assert_eq!(track.artist, "No Artist");
    assert_eq!(track.album_title, "No Title");
    assert_eq!(track.length, 10);
    assert!(track.album_cover.is_none());
    assert_eq!(srv.take_events(), vec![PlaybackChangedEvent::TrackChanged]);
    assert!(srv.take_events().is_empty());
}

#[test]
fn zero_length_means_no_track() {
    let mut srv = bound_service();
    srv.update_current_session_info(snapshot(Some("Song"), Some("Artist"), Some("Album"), 9_999_999));
    assert!(srv.current_track().is_none());
    srv.update_current_session_info(snapshot(Some("Song"), Some("Artist"), Some("Album"), -5));
    assert!(srv.current_track().is_none());
    assert_eq!(
        srv.take_events(),
        vec![PlaybackChangedEvent::TrackChanged, PlaybackChangedEvent::TrackChanged]
    );
}

#[test]
fn playback_status_maps_to_playing() {
    let mut srv = bound_service();
    srv.update_playback_info(PlaybackStatus::Playing);
    assert!(srv.current_playback_state().is_playing);
    srv.update_playback_info(PlaybackStatus::Changing);
    assert!(!srv.current_playback_state().is_playing);
    srv.update_playback_info(PlaybackStatus::Paused);
    assert!(!srv.current_playback_state().is_playing);
    assert_eq!(
        srv.take_events(),
        vec![PlaybackChangedEvent::Play, PlaybackChangedEvent::Pause, PlaybackChangedEvent::Pause]
    );
}

#[test]
fn playback_status_codes() {
    assert_eq!(PlaybackStatus::from_code(4), Some(PlaybackStatus::Playing));
    assert_eq!(PlaybackStatus::from_code(5), Some(PlaybackStatus::Paused));
    assert_eq!(PlaybackStatus::from_code(2), Some(PlaybackStatus::Changing));
    assert_eq!(PlaybackStatus::from_code(0), Some(PlaybackStatus::Closed));
    assert_eq!(PlaybackStatus::from_code(6), None);
    assert_eq!(PlaybackStatus::from_code(-1), None);
}

#[test]
fn toggle_playback_plays_or_pauses() {
    let mut srv = bound_service();
    assert_eq!(srv.toggle_playback(), Some(TransportCommand::Play));
    srv.update_playback_info(PlaybackStatus::Playing);
    assert_eq!(srv.toggle_playback(), Some(TransportCommand::Pause));
}

#[test]
fn commands_go_to_the_bound_session() {
    let srv = bound_service();
    assert_eq!(srv.next_track(), Some(TransportCommand::SkipNext));
    assert_eq!(srv.previous_track(), Some(TransportCommand::SkipPrevious));
    assert_eq!(srv.play(), Some(TransportCommand::Play));
    assert_eq!(srv.pause(), Some(TransportCommand::Pause));
    assert_eq!(srv.seek(150), None);
    assert_eq!(srv.set_volume(50), None);
}

#[test]
fn no_session_means_quiet_success() {
    let mut srv = WindowsMediaService::new("spotify.exe");
    assert_eq!(srv.update_sessions(&ids(&["chrome.exe"])), SessionsUpdate::Idle);
    assert!(srv.current_track().is_none());
    assert!(!srv.current_playback_state().is_playing);
    assert_eq!(srv.next_track(), None);
    assert_eq!(srv.previous_track(), None);
    assert_eq!(srv.play(), None);
    assert_eq!(srv.pause(), None);
    assert_eq!(srv.toggle_playback(), None);
    srv.update_current_session_info(snapshot(Some("Song"), None, None, 100_000_000));
    srv.update_playback_info(PlaybackStatus::Playing);
    assert!(srv.current_track().is_none());
    assert!(!srv.current_playback_state().is_playing);
    assert!(srv.take_events().is_empty());
}

#[test]
fn notifications_each_emit_one_event_in_either_order() {
    let mut a = bound_service();
    a.update_current_session_info(snapshot(Some("Song"), Some("Artist"), None, 200_000_000));
    a.update_playback_info(PlaybackStatus::Playing);
    assert_eq!(a.take_events(), vec![PlaybackChangedEvent::TrackChanged, PlaybackChangedEvent::Play]);

    let mut b = bound_service();
    b.update_playback_info(PlaybackStatus::Playing);
    b.update_current_session_info(snapshot(Some("Song"), Some("Artist"), None, 200_000_000));
    assert_eq!(b.take_events(), vec![PlaybackChangedEvent::Play, PlaybackChangedEvent::TrackChanged]);

    assert_eq!(a.current_track().unwrap().title, b.current_track().unwrap().title);
    assert_eq!(a.current_track().unwrap().length, 20);
    assert_eq!(b.current_track().unwrap().length, 20);
    assert!(a.current_playback_state().is_playing && b.current_playback_state().is_playing);
}

#[test]
fn unbinding_clears_track_and_tokens() {
    let mut srv = bound_service();
    srv.update_current_session_info(snapshot(Some("Song"), None, None, 100_000_000));
    srv.update_playback_info(PlaybackStatus::Playing);
    srv.take_events();
    let update = srv.update_sessions(&ids(&["chrome.exe"]));
    assert_eq!(
        update,
        SessionsUpdate::Unbind(Unregistration { metadata_token: Some(11), playback_token: Some(12) })
    );
    assert!(srv.current_track().is_none());
    assert!(!srv.current_playback_state().is_playing);
    assert!(!srv.has_session());
    assert_eq!(srv.take_events(), vec![PlaybackChangedEvent::TrackChanged]);
    assert_eq!(srv.update_sessions(&ids(&["chrome.exe"])), SessionsUpdate::Idle);
    assert!(srv.take_events().is_empty());
    assert_eq!(srv.shut_down(), (None, None));
}

#[test]
fn shut_down_returns_every_registration() {
    let mut srv = WindowsMediaService::new("spotify.exe");
    srv.begin_monitor_sessions(&ids(&["spotify.exe"]));
    srv.sessions_changed_registered(3);
    srv.source_session_registered(4, 5);
    let (sessions, source) = srv.shut_down();
    assert_eq!(sessions, Some(3));
    assert_eq!(source, Some(Unregistration { metadata_token: Some(4), playback_token: Some(5) }));
    assert_eq!(srv.shut_down(), (None, None));
    assert_eq!(srv.end_monitor_sessions(), None);
}

#[test]
fn changing_the_source_app_unbinds() {
    let mut srv = bound_service();
    assert_eq!(srv.set_source_app_id("SPOTIFY.EXE"), None);
    assert!(srv.has_session());
    let u = srv.set_source_app_id("Music.exe");
    assert_eq!(u, Some(Unregistration { metadata_token: Some(11), playback_token: Some(12) }));
    assert_eq!(srv.get_source_app_id(), "music.exe");
    assert!(!srv.has_session());
    assert_eq!(srv.update_sessions(&ids(&["spotify.exe", "music.exe"])), SessionsUpdate::Bind(1));
}

#[test]
fn unreadable_or_truncated_thumbnail_has_no_cover() {
    assert!(read_thumbnail(false, 71, TINY_PNG.to_vec()).is_none());
    assert!(read_thumbnail(true, 71, TINY_PNG[..40].to_vec()).is_none());
    assert!(read_thumbnail(true, 3, vec![1, 2, 3]).is_none());
    assert!(read_thumbnail(true, 0, Vec::new()).is_none());
}

#[test]
fn thumbnail_decodes_to_rgba() {
    match read_thumbnail(true, 71, TINY_PNG.to_vec()) {
        AlbumCover::Image(b) => {
            assert_eq!((b.width, b.height), (2, 1));
            assert_eq!(b.pixels, vec![255, 0, 0, 255, 0, 0, 255, 128]);
        }
        other => panic!("expected an image, got {}", other.kind_name()),
    }
}

#[test]
fn cover_kinds() {
    assert_eq!(cover_from_decoded(None).kind_name(), "None");
    assert_eq!(AlbumCover::Url("x".to_string()).kind_name(), "Url");
    assert!(!AlbumCover::Url("x".to_string()).is_none());
}

#[test]
fn bad_thumbnail_keeps_the_rest_of_the_track() {
    let mut srv = bound_service();
    let mut snap = snapshot(Some("Song"), Some("Artist"), Some("Album"), 30_000_000);
    snap.album_cover = read_thumbnail(true, 71, TINY_PNG[..10].to_vec());
    srv.update_current_session_info(snap);
    let track = srv.current_track().unwrap();
    assert_eq!(track.title, "Song");
    assert_eq!(track.artist, "Artist");
    assert_eq!(track.album_title, "Album");
    assert_eq!(track.length, 3);
    assert!(track.album_cover.is_none());
}

#[test]
fn folded_enumeration_binds_exact_match() {
    let mut srv = WindowsMediaService::new("spotify.exe");
    assert_eq!(srv.update_folded_sessions(&ids(&["Spotify.exe", "spotify.exe"])), SessionsUpdate::Bind(1));
    assert_eq!(srv.update_folded_sessions(&ids(&["spotify.exe"])), SessionsUpdate::Unchanged);
    assert_eq!(
        srv.update_folded_sessions(&ids(&["SPOTIFY.EXE"])),
        SessionsUpdate::Unbind(Unregistration { metadata_token: None, playback_token: None })
    );
    assert_eq!(srv.take_events(), vec![PlaybackChangedEvent::TrackChanged]);
}

#[test]
fn playback_codes_update_the_state() {
    let mut srv = bound_service();
    srv.update_playback_code(4);
    assert!(srv.current_playback_state().is_playing);
    srv.update_playback_code(42);
    assert!(!srv.current_playback_state().is_playing);
    srv.update_playback_code(5);
    assert!(!srv.current_playback_state().is_playing);
    assert_eq!(
        srv.take_events(),
        vec![PlaybackChangedEvent::Play, PlaybackChangedEvent::Pause, PlaybackChangedEvent::Pause]
    );
    let mut idle = WindowsMediaService::new("spotify.exe");
    idle.update_playback_code(4);
    assert!(!idle.current_playback_state().is_playing);
    assert!(idle.take_events().is_empty());
}

#[test]
fn decoded_cover_holds_four_bytes_per_pixel() {
    match read_thumbnail(true, 71, TINY_PNG.to_vec()) {
        AlbumCover::Image(b) => assert_eq!(b.pixels.len(), 4 * (b.width * b.height) as usize),
        other => panic!("expected an image, got {}", other.kind_name()),
    }
}

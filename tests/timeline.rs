use striputary::dbus_event::{
    is_valid_song, new_song_event, DbusEvent, PlaybackStatus, PlayerInformation, TimedDbusEvent,
    Timestamp,
};
use striputary::recording_session::{
    RecordingExitStatus, RecordingSession, RecordingStatus, TimelineReconstructor,
};
use striputary::song::Song;

fn song(title: &str, length_micros: u64) -> Song {
    Song {
        artist: Some("artist".into()),
        album: Some("album".into()),
        title: Some(title.into()),
        track_number: Some(1),
        length_micros,
    }
}

fn at(micros: u64, event: DbusEvent) -> TimedDbusEvent {
    TimedDbusEvent { event, timestamp: Timestamp { time_since_start_micros: micros } }
}

#[test]
fn duplicates_dropped_and_pause_finishes() {
    let a = song("a", 180_000_000);
    let b = song("b", 200_000_000);
    let events = vec![
        at(1_000, DbusEvent::NewSong(a.clone())),
        at(2_000, DbusEvent::NewSong(a.clone())),
        at(3_000, DbusEvent::NewSong(b.clone())),
        at(4_000, DbusEvent::StatusChanged(PlaybackStatus::Paused)),
    ];
    let (session, status) = RecordingSession::reconstruct(&events);
    assert_eq!(session.songs, vec![a, b]);
    assert_eq!(session.estimated_time_first_song, 1_000);
    assert_eq!(status, RecordingStatus::Finished(RecordingExitStatus::FinishedOrInterrupted));
}

#[test]
fn events_after_pause_are_not_consumed() {
    let a = song("a", 1);
    let b = song("b", 2);
    let events = vec![
        at(5, DbusEvent::StatusChanged(PlaybackStatus::Playing)),
        at(6, DbusEvent::NewSong(a.clone())),
        at(7, DbusEvent::StatusChanged(PlaybackStatus::Paused)),
        at(8, DbusEvent::NewSong(b)),
    ];
    let session = RecordingSession::from_events(&events);
    assert_eq!(session.songs, vec![a]);
    assert_eq!(session.estimated_time_first_song, 5);
}

#[test]
fn zero_length_songs_never_appear() {
    let a = song("a", 10);
    let z = song("placeholder", 0);
    for position in 0..4 {
        let mut events = vec![
            at(1, DbusEvent::NewSong(a.clone())),
            at(2, DbusEvent::PlayerInformation(PlayerInformation::CanGoNext(true))),
            at(3, DbusEvent::NewSong(song("b", 20))),
        ];
        events.insert(position, at(9, DbusEvent::NewSong(z.clone())));
        let (session, status) = RecordingSession::reconstruct(&events);
        assert!(session.songs.iter().all(|s| s.length_micros != 0));
        assert_eq!(session.songs.len(), 2);
        assert_eq!(status, RecordingStatus::Running);
    }
}

#[test]
fn invalid_song_events_are_dropped() {
    let z = song("placeholder", 0);
    assert!(!is_valid_song(&z));
    assert!(is_valid_song(&song("x", 1)));
    let e = new_song_event(z.clone());
    assert!(matches!(e, DbusEvent::NewInvalidSong(_)));
    let session = RecordingSession::from_events(&[at(1, e)]);
    assert!(session.songs.is_empty());
    assert_eq!(session.estimated_time_first_song, 0);
}

#[test]
fn same_song_again_after_another_is_kept() {
    let a = song("a", 10);
    let b = song("b", 20);
    let events = vec![
        at(1, DbusEvent::NewSong(a.clone())),
        at(2, DbusEvent::NewSong(b.clone())),
        at(3, DbusEvent::NewSong(a.clone())),
    ];
    let session = RecordingSession::from_events(&events);
    assert_eq!(session.songs, vec![a, b.clone(), song("a", 10)]);
    assert_ne!(session.songs[1], session.songs[2]);
}

#[test]
fn reconstructor_reports_each_event() {
    let mut r = TimelineReconstructor::new();
    assert_eq!(r.handle_event(&at(1, DbusEvent::NewSong(song("a", 10)))), RecordingStatus::Running);
    assert_eq!(r.num_songs(), 1);
    let s = r.handle_event(&at(2, DbusEvent::StatusChanged(PlaybackStatus::Paused)));
    assert_eq!(s, RecordingStatus::Finished(RecordingExitStatus::FinishedOrInterrupted));
    let s = r.handle_event(&at(3, DbusEvent::NewSong(song("b", 10))));
    assert_eq!(s, RecordingStatus::Finished(RecordingExitStatus::FinishedOrInterrupted));
    assert_eq!(r.session().songs.len(), 1);
}

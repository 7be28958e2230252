use striputary::dbus_event::{
    get_player_information, get_song_length, get_status_changed, parse_u64, DbusEvent,
    LengthValue, PlaybackStatus, PlayerInformation,
};
use striputary::song::Song;

#[test]
fn lengths_in_all_encodings() {
    assert_eq!(get_song_length(&LengthValue::Unsigned(180_000_000)), Some(180_000_000));
    assert_eq!(get_song_length(&LengthValue::Signed(200_000_000)), Some(200_000_000));
    assert_eq!(get_song_length(&LengthValue::Signed(-1)), None);
    assert_eq!(get_song_length(&LengthValue::Text("150000000".into())), Some(150_000_000));
    assert_eq!(get_song_length(&LengthValue::Text("abc".into())), None);
}

#[test]
fn decimal_parsing_matches_std() {
    for s in ["0", "+7", "18446744073709551615", "18446744073709551616", "", "+", "12a", "-3", " 1", "007"] {
        assert_eq!(parse_u64(s), s.parse::<u64>().ok(), "{}", s);
    }
}

#[test]
fn song_from_metadata() {
    let s = Song::from_metadata(
        Some("a".into()),
        None,
        Some("t".into()),
        Some(2),
        &LengthValue::Text("5".into()),
    )
    .unwrap();
    assert_eq!(s.length_micros, 5);
    assert_eq!(s.track_number, Some(2));
    assert!(Song::from_metadata(None, None, None, None, &LengthValue::Signed(-5)).is_none());
}

#[test]
fn status_words() {
    assert_eq!(get_status_changed("Paused"), Some(PlaybackStatus::Paused));
    assert_eq!(get_status_changed("Playing"), Some(PlaybackStatus::Playing));
    assert_eq!(get_status_changed("Stopped"), None);
}

#[test]
fn player_information_and_event_kinds() {
    assert_eq!(get_player_information(Some(0), Some(1)), Some(PlayerInformation::CanGoPrevious(false)));
    assert_eq!(get_player_information(None, Some(1)), Some(PlayerInformation::CanGoNext(true)));
    assert_eq!(get_player_information(None, None), None);
    let song = Song { artist: None, album: None, title: None, track_number: None, length_micros: 0 };
    assert!(matches!(
        DbusEvent::from_changes(Some(PlaybackStatus::Paused), None, song.clone()),
        DbusEvent::StatusChanged(PlaybackStatus::Paused)
    ));
    assert!(matches!(
        DbusEvent::from_changes(None, Some(PlayerInformation::CanGoNext(true)), song.clone()),
        DbusEvent::PlayerInformation(PlayerInformation::CanGoNext(true))
    ));
    assert!(matches!(DbusEvent::from_changes(None, None, song.clone()), DbusEvent::NewInvalidSong(_)));
    let valid = Song { length_micros: 1, ..song };
    assert!(matches!(DbusEvent::from_changes(None, None, valid), DbusEvent::NewSong(_)));
}

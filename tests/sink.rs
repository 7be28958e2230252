use striputary::options::SoundServer;
use striputary::service::{
    dbus_set_playback_status_command, next_song, previous_song, start_playback, stop_playback,
    Service, ServiceConfig,
};
use striputary::sink::{find_sink_input_index, get_sink_input_index, SinkLookupError};

const PULSE_LISTING: &str = "Sink Input #12\n\tDriver: protocol-native.c\n\tindex: 12\n\tProperties:\n\t\tmedia.name = \"Playback\"\nindex: 31\n\tProperties:\n\t\tmedia.name = \"Spotify\"\n";

#[test]
fn sink_input_found_by_media_name() {
    assert_eq!(get_sink_input_index(SoundServer::Pulseaudio, Service::SpotifyNative, PULSE_LISTING), Ok(31));
    assert_eq!(get_sink_input_index(SoundServer::Pulseaudio, Service::SpotifyChromium, PULSE_LISTING), Ok(12));
    let pipewire = "Sink Input #77\n\tProperties:\n\t\tmedia.name = \"Spotify\"\n";
    assert_eq!(get_sink_input_index(SoundServer::Pipewire, Service::SpotifyNative, pipewire), Ok(77));
}

#[test]
fn sink_input_missing_or_malformed() {
    assert_eq!(
        get_sink_input_index(SoundServer::Pulseaudio, Service::SpotifyNative, "nothing here"),
        Err(SinkLookupError::NotFound)
    );
    let no_index = "index: \n media.name = \"Spotify\"";
    assert_eq!(
        get_sink_input_index(SoundServer::Pulseaudio, Service::SpotifyNative, no_index),
        Err(SinkLookupError::NotAnInteger)
    );
    let huge = "index: 99999999999 media.name = \"Spotify\"";
    assert_eq!(
        get_sink_input_index(SoundServer::Pulseaudio, Service::SpotifyNative, huge),
        Err(SinkLookupError::NotAnInteger)
    );
}

#[test]
fn playback_commands() {
    let c = ServiceConfig { sink_name: "Spotify".into(), dbus_bus_name: "org.mpris.MediaPlayer2.spotify".into() };
    let args = dbus_set_playback_status_command(&c, "Play");
    assert_eq!(
        args,
        vec![
            "--print-reply".to_string(),
            "--dest=org.mpris.MediaPlayer2.spotify".to_string(),
            "/org/mpris/MediaPlayer2".to_string(),
            "org.mpris.MediaPlayer2.Player.Play".to_string(),
        ]
    );
    assert_eq!(start_playback(&c), args);
    assert_eq!(stop_playback(&c)[3], "org.mpris.MediaPlayer2.Player.Pause");
    assert_eq!(previous_song(&c)[3], "org.mpris.MediaPlayer2.Player.Previous");
    assert_eq!(next_song(&c)[3], "org.mpris.MediaPlayer2.Player.Next");
}

#[test]
fn index_from_capture_groups() {
    let caps = vec![
        (Some("3".to_string()), None),
        (Some("4".to_string()), Some("Other".to_string())),
        (Some("+5".to_string()), Some("Spotify".to_string())),
        (Some("6".to_string()), Some("Spotify".to_string())),
    ];
    assert_eq!(find_sink_input_index(&caps, "Spotify"), Ok(5));
    assert_eq!(find_sink_input_index(&caps, "Nothing"), Err(SinkLookupError::NotFound));
    let no_index = vec![(None, Some("Spotify".to_string()))];
    assert_eq!(find_sink_input_index(&no_index, "Spotify"), Err(SinkLookupError::InvalidLine));
}

use striputary::service::{get_instance_of_service, Service, ServiceConfig, ServiceLookupError};

#[test]
fn instance_is_the_single_matching_line() {
    let listing = ":1.0\n org.mpris.MediaPlayer2.chromium.instance123 \norg.freedesktop.DBus\n";
    assert_eq!(
        get_instance_of_service(listing, "org.mpris.MediaPlayer2.chromium"),
        Ok("org.mpris.MediaPlayer2.chromium.instance123".to_string())
    );
}

#[test]
fn no_or_several_instances_fail() {
    let base = "org.mpris.MediaPlayer2.chromium";
    assert_eq!(get_instance_of_service("org.x\r\n", base), Err(ServiceLookupError::NoMatch));
    assert_eq!(get_instance_of_service("", base), Err(ServiceLookupError::NoMatch));
    let two = "org.mpris.MediaPlayer2.chromium.a\norg.mpris.MediaPlayer2.chromium.b";
    assert_eq!(get_instance_of_service(two, base), Err(ServiceLookupError::MultipleMatches));
}

#[test]
fn service_names() {
    assert_eq!(Service::SpotifyNative.sink_name(), "Spotify");
    assert_eq!(Service::SpotifyChromium.sink_name(), "Playback");
    assert_eq!(Service::default(), Service::SpotifyNative);
    assert_eq!(
        Service::SpotifyNative.dbus_bus_name(""),
        Ok("org.mpris.MediaPlayer2.spotify".to_string())
    );
    assert_eq!(
        Service::SpotifyChromium.dbus_bus_name("org.mpris.MediaPlayer2.chromium.instance7\n"),
        Ok("org.mpris.MediaPlayer2.chromium.instance7".to_string())
    );
    let c = ServiceConfig::from_service(Service::SpotifyChromium, "org.mpris.MediaPlayer2.chromium.i1")
        .unwrap();
    assert_eq!(c.sink_name, "Playback");
    assert_eq!(c.dbus_bus_name, "org.mpris.MediaPlayer2.chromium.i1");
    assert!(ServiceConfig::from_service(Service::SpotifyChromium, "").is_err());
}

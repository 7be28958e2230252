use striputary::paths::{file_stem, decimal_string, get_buffer_file, get_yaml_file, join_path, seconds_string, signed_decimal_string};
use striputary::recording_session::SessionPath;
use striputary::run_args::RunArgs;
use striputary::service::{ServiceConfig, SinkType};
use striputary::song::{format_album, format_artist, format_title, Song};

#[test]
fn join_inserts_one_separator() {
    assert_eq!(join_path("a/b", "c"), "a/b/c");
    assert_eq!(join_path("a/b/", "c"), "a/b/c");
    assert_eq!(join_path("", "c"), "c");
    assert_eq!(join_path("a", "/abs"), "/abs");
}

#[test]
fn numbered_session_files() {
    assert_eq!(get_yaml_file(std::path::Path::new("dir").to_str().unwrap(), 3), "dir/3.yaml");
    assert_eq!(get_buffer_file("dir", 12), "dir/12.wav");
    assert_eq!(get_yaml_file("dir", -1), "dir/-1.yaml");
}

#[test]
fn decimal_forms() {
    assert_eq!(decimal_string(0), "0");
    assert_eq!(decimal_string(1234567890), "1234567890");
    assert_eq!(decimal_string(u64::MAX), u64::MAX.to_string());
    assert_eq!(signed_decimal_string(i64::MIN), i64::MIN.to_string());
    assert_eq!(signed_decimal_string(-42), "-42");
    assert_eq!(seconds_string(5_400_000), "5.400000");
    assert_eq!(seconds_string(-1), "-0.000001");
}

#[test]
fn session_path_files() {
    let p = SessionPath("out/2024".into());
    assert_eq!(p.get_yaml_file(), "out/2024/session.yaml");
    assert_eq!(p.get_buffer_file(), "out/2024/buffer.wav");
    assert_eq!(p.get_music_dir(), "out/2024/cut");
}

#[test]
fn run_args_files() {
    let config = ServiceConfig { sink_name: "Spotify".into(), dbus_bus_name: "bus".into() };
    let args = RunArgs::new("sessions/", config, SinkType::Monitor);
    assert_eq!(args.get_yaml_file(), "sessions/session.yaml");
    assert_eq!(args.get_buffer_file(), "sessions/buffer.wav");
    assert_eq!(args.sink_type, SinkType::Monitor);
    assert_eq!(SinkType::default(), SinkType::Normal);
}

#[test]
fn names_are_sanitized() {
    assert_eq!(format_artist(&Some("AC/DC, Someone Else".into())), "ACDC");
    assert_eq!(format_title(&Some("  ".into())), "unknown_title");
    assert_eq!(format_album(&None), "unknown_album");
    assert_eq!(format_artist(&None), "unknown_artist");
    assert_eq!(format_title(&Some(",leading comma".into())), "unknown_title");
    assert_eq!(format_title(&Some("Café del Mar".into())), "CafédelMar");
}

#[test]
fn target_files() {
    let mut s = Song {
        artist: Some("A B".into()),
        album: Some("C/D".into()),
        title: Some("E F".into()),
        track_number: Some(7),
        length_micros: 1,
    };
    assert_eq!(s.get_album_folder("music"), "music/AB/CD");
    assert_eq!(s.get_target_file("music", 4), "music/AB/CD/07_EF.opus");
    s.track_number = Some(12);
    assert_eq!(s.get_target_file("music", 4), "music/AB/CD/12_EF.opus");
    s.track_number = None;
    assert_eq!(s.get_target_file("music", 4), "music/AB/CD/recording_4_EF.opus");
}

#[test]
fn file_stem_matches_std() {
    for p in ["out/2024-01-02", "out/session.yaml", "a/b/", "a/.hidden", "a/..", "", "/", "x.tar.gz", "noext"] {
        let expected = std::path::Path::new(p).file_stem().map(|s| s.to_string_lossy().into_owned());
        assert_eq!(file_stem(p), expected, "{}", p);
    }
}

use striputary::audio_time::AudioSpec;
use striputary::cut::{
    build_cut_plan, cut_command_args, get_boundary_times, get_cut_infos,
    get_cut_plan, get_cut_timestamps_from_song_lengths, get_excerpt_collection, get_excerpt_window, CutInterval,
};
use striputary::audio_excerpt::excerpt_from_samples;
use striputary::recording_session::{RecordingSession, RecordingSessionWithPath, SessionPath};
use striputary::song::Song;

fn song(title: &str, seconds: u64) -> Song {
    Song {
        artist: Some("The Band".into()),
        album: Some("First, Second".into()),
        title: Some(title.into()),
        track_number: Some(3),
        length_micros: seconds * 1_000_000,
    }
}

#[test]
fn cut_plan_is_contiguous() {
    let songs = vec![song("a", 180), song("b", 200), song("c", 150)];
    let plan = build_cut_plan(&songs, 5_000_000, 400_000);
    assert_eq!(
        plan,
        vec![
            CutInterval { start_micros: 5_400_000, end_micros: 185_400_000 },
            CutInterval { start_micros: 185_400_000, end_micros: 385_400_000 },
            CutInterval { start_micros: 385_400_000, end_micros: 535_400_000 },
        ]
    );
    assert_eq!(plan[2].end_micros - plan[0].start_micros, 530_000_000);
    assert!(build_cut_plan(&[], 5_000_000, 400_000).is_empty());
}

#[test]
fn cut_timestamps_accumulate_lengths() {
    let songs = vec![song("a", 180), song("b", 200), song("c", 150)];
    assert_eq!(
        get_cut_timestamps_from_song_lengths(&songs, 5_000_000),
        vec![5_000_000, 185_000_000, 385_000_000]
    );
}

#[test]
fn excerpt_window_spans_the_offset_range() {
    assert_eq!(get_excerpt_window(10_000_000), (6_500_000, 13_500_000));
}

fn session() -> RecordingSessionWithPath {
    RecordingSessionWithPath {
        session: RecordingSession {
            songs: vec![song("a", 10), song("b", 20)],
            estimated_time_first_song: 4_000_000,
        },
        path: SessionPath("/music/session".into()),
    }
}

#[test]
fn boundary_times_include_end_of_last_song() {
    assert_eq!(get_boundary_times(&session()), Some(vec![4_000_000, 14_000_000, 34_000_000]));
}

#[test]
fn cut_infos_bind_songs_to_spans() {
    let spec = AudioSpec { channels: 2, sample_rate: 48000 };
    let infos = get_cut_infos(&session(), -1_000_000, spec);
    assert_eq!(infos.len(), 2);
    assert_eq!(infos[0].start_time.time_micros, 3_000_000);
    assert_eq!(infos[0].end_time.time_micros, 13_000_000);
    assert_eq!(infos[1].start_time.time_micros, 13_000_000);
    assert_eq!(infos[1].end_time.time_micros, 33_000_000);
    assert_eq!(infos[1].start_time.frame_num, 624_000);
    assert_eq!(infos[1].num_in_recording, 1);
    assert_eq!(infos[0].buffer_file, "/music/session/buffer.wav");
    assert_eq!(infos[0].music_dir, "/music/session/cut");
    let args = cut_command_args(&infos[1]);
    let expected: Vec<String> = [
        "-ss",
        "13.000000",
        "-t",
        "20.000000",
        "-i",
        "/music/session/buffer.wav",
        "-c:a",
        "libopus",
        "-b:a",
        "192000",
        "-metadata",
        "title=b",
        "-metadata",
        "album=First, Second",
        "-metadata",
        "artist=The Band",
        "-metadata",
        "albumartist=The Band",
        "-metadata",
        "track=3",
        "-y",
        "/music/session/cut/TheBand/First/03_b.opus",
    ]
    .iter()
    .map(|s| s.to_string())
    .collect();
    assert_eq!(args, expected);
}

#[test]
fn cut_command_without_tags() {
    let spec = AudioSpec { channels: 1, sample_rate: 8000 };
    let mut s = session();
    s.session.songs = vec![Song {
        artist: None,
        album: None,
        title: None,
        track_number: None,
        length_micros: 1_500_000,
    }];
    s.session.estimated_time_first_song = 0;
    let infos = get_cut_infos(&s, -250_000, spec);
    let args = cut_command_args(&infos[0]);
    assert_eq!(args[1], "-0.250000");
    assert_eq!(args[3], "1.500000");
    assert_eq!(args.len(), 12);
    assert_eq!(args[11], "/music/session/cut/unknown_artist/unknown_album/recording_0_unknown_title.opus");
}

#[test]
fn excerpt_collection_names_songs_and_searches() {
    let spec = AudioSpec { channels: 1, sample_rate: 1000 };
    let s = session();
    let mut excerpts = Vec::new();
    for t in [4_000_000i64, 14_000_000] {
        let (start, end) = get_excerpt_window(t);
        excerpts.push(excerpt_from_samples(spec, start, end, vec![0; 7000]).unwrap());
    }
    let c = get_excerpt_collection(s.clone(), excerpts);
    assert_eq!(c.excerpts.len(), 2);
    assert_eq!(c.excerpts[0].num, 0);
    assert!(c.excerpts[0].song_before.is_none());
    assert_eq!(c.excerpts[1].song_before, Some(song("a", 10)));
    assert_eq!(c.excerpts[0].song_after, Some(song("a", 10)));
    assert_eq!(c.excerpts[1].song_after, Some(song("b", 20)));
    let guess = c.offset_guess.unwrap();
    assert_eq!(guess.offset, -3_000_000);
    assert_eq!(guess.quality, 0);
    // Two excerpts frame one song.
    let plan = get_cut_plan(&c, spec).unwrap();
    assert_eq!(plan.len(), 1);
    assert_eq!(plan[0].song, song("a", 10));
    assert_eq!(plan[0].start_time.time_micros, 1_000_000);
    assert_eq!(plan[0].end_time.time_micros, 11_000_000);
    assert!(get_cut_plan(&c, AudioSpec { channels: 2, sample_rate: u32::MAX }).is_none());
    let empty = get_excerpt_collection(s, vec![]);
    assert!(empty.offset_guess.is_none());
    assert!(get_cut_plan(&empty, spec).is_none());
}

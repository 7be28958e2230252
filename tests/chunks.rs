use striputary::audio_excerpt::{excerpt_from_samples, AudioExcerpt};
use striputary::audio_time::AudioSpec;
use striputary::cut::{
    get_chunk_boundary_times, get_excerpt_collection, get_next_chunk_seed, total_length,
};
use striputary::excerpt_collections::ExcerptCollections;
use striputary::recording_session::{RecordingSession, RecordingSessionWithPath, SessionPath};
use striputary::song::Song;

fn song(seconds: u64) -> Song {
    Song { artist: None, album: None, title: None, track_number: None, length_micros: seconds * 1_000_000 }
}

#[test]
fn chunks_are_seeded_from_the_previous_chunk() {
    let songs = vec![song(100), song(200), song(300), song(50), song(60)];
    assert_eq!(get_chunk_boundary_times(&songs, 0, 2, 1_000_000), vec![1_000_000, 101_000_000]);
    let seed = get_next_chunk_seed(&songs, 0, 2, 1_000_000, 500_000);
    assert_eq!(seed, 301_500_000);
    assert_eq!(
        get_chunk_boundary_times(&songs, 2, 2, seed),
        vec![301_500_000, 601_500_000]
    );
    assert_eq!(get_chunk_boundary_times(&songs, 4, 2, 0), vec![0]);
    assert!(get_chunk_boundary_times(&songs, 5, 2, 0).is_empty());
    assert_eq!(get_next_chunk_seed(&songs, 4, 2, 0, -1), 59_999_999);
    assert_eq!(total_length(&songs), 710_000_000);
}

fn silent(t: i64) -> AudioExcerpt {
    excerpt_from_samples(AudioSpec { channels: 1, sample_rate: 100 }, t - 3_500_000, t + 3_500_000, vec![0; 700]).unwrap()
}

#[test]
fn selecting_among_collections() {
    let session = RecordingSessionWithPath {
        session: RecordingSession { songs: vec![song(10)], estimated_time_first_song: 5_000_000 },
        path: SessionPath("s".into()),
    };
    let c = get_excerpt_collection(session.clone(), vec![silent(5_000_000), silent(15_000_000)]);
    let d = get_excerpt_collection(session, vec![]);
    let mut all = ExcerptCollections::new(vec![c, d]);
    assert_eq!(all.len(), 2);
    assert_eq!(all.get_selected_index(), 0);
    assert!(all.get_selected().offset_guess.is_some());
    all.select_next();
    all.select_next();
    assert_eq!(all.get_selected_index(), 1);
    assert!(all.get_selected().offset_guess.is_none());
    all.select_previous();
    all.select_previous();
    assert_eq!(all.get_selected_index(), 0);
    all.select(1);
    assert_eq!(all.get_selected_index(), 1);
    assert_eq!(all.enumerate().len(), 2);
}

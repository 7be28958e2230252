use striputary::audio_excerpt::{
    excerpt_from_samples, excerpt_read_range, get_volume_average_over_channels, AudioExcerpt,
    MissingSongError, VOLUME_SCALE,
};
use striputary::audio_time::{AudioSpec, AudioTime};

fn mono() -> AudioSpec {
    AudioSpec { channels: 1, sample_rate: 10000 }
}

fn excerpt(samples: Vec<i16>) -> AudioExcerpt {
    let end = samples.len() as i64 * 100;
    excerpt_from_samples(mono(), 0, end, samples).unwrap()
}

#[test]
fn volume_of_constant_signal() {
    let e = excerpt(vec![16384; 10000]);
    assert_eq!(e.get_volume_at(500_000), 500_000);
    let e = excerpt(vec![-16384; 10000]);
    assert_eq!(e.get_volume_at(500_000), 500_000);
}

#[test]
fn volume_of_silence_is_zero() {
    let e = excerpt(vec![0; 10000]);
    assert_eq!(e.get_volume_at(300_000), 0);
}

#[test]
fn volume_stays_within_full_scale() {
    let e = excerpt(vec![i16::MIN; 10000]);
    assert_eq!(e.get_volume_at(500_000), VOLUME_SCALE);
    let mut samples = vec![i16::MAX; 10000];
    for (i, s) in samples.iter_mut().enumerate() {
        if i % 2 == 0 {
            *s = i16::MIN;
        }
    }
    let e = excerpt(samples);
    for t in [0, 1, 99_999, 250_000, 999_999] {
        let v = e.get_volume_at(t);
        assert!(v <= VOLUME_SCALE);
        assert!(v > 999_000);
    }
}

#[test]
fn volume_averages_over_the_window_around_the_time() {
    let mut samples = vec![0i16; 10000];
    for s in samples.iter_mut().skip(5000) {
        *s = 32767;
    }
    let e = excerpt(samples);
    // Window [3000, 7000): half silent, half at 32767.
    assert_eq!(e.get_volume_at(500_000), 499_984);
    assert_eq!(e.get_volume_at(100_000), 0);
    // Window clamped at the end: [7000, 10000), all loud.
    assert_eq!(e.get_volume_at(900_000), 999_969);
}

#[test]
fn volume_outside_the_excerpt() {
    let mut samples = vec![0i16; 10000];
    for s in samples.iter_mut().take(2000) {
        *s = 100;
    }
    let e = excerpt(samples);
    // Before the start the window is the first samples.
    assert_eq!(e.get_volume_at(-1_000_000), 100 * 1_000_000 / 32768);
    // Far past the end the window is empty.
    assert_eq!(e.get_volume_at(2_000_000), 0);
}

#[test]
fn too_few_samples_is_missing_song() {
    let r = excerpt_from_samples(mono(), 0, 1_000_000, vec![0; 9999]);
    assert_eq!(r.unwrap_err(), MissingSongError {});
    let r = excerpt_from_samples(mono(), 0, 1_000_000, vec![0; 10000]);
    let e = r.unwrap();
    assert_eq!(e.start.frame_num, 0);
    assert_eq!(e.end.frame_num, 10000);
    assert!(e.is_wf());
}

#[test]
fn read_range_of_a_window() {
    let spec = AudioSpec { channels: 2, sample_rate: 44100 };
    assert_eq!(excerpt_read_range(spec, 1_000_000, 3_000_000), (44100, 176400));
    assert_eq!(excerpt_read_range(spec, -500_000, 500_000), (0, 88200));
}

#[test]
fn relative_time_to_excerpt_start() {
    let e = excerpt_from_samples(mono(), 2_000_000, 3_000_000, vec![0; 10000]).unwrap();
    let t = AudioTime::from_time_and_spec(2_500_000, mono());
    let rel = e.get_relative_time(t);
    assert_eq!(rel.time_micros, 500_000);
    assert_eq!(rel.interleaved_sample_num, 5000);
}

#[test]
fn channels_are_averaged_pairwise() {
    let r = get_volume_average_over_channels(vec![3, 5, -3, -5, 7]);
    assert_eq!(r, vec![3, -3]);
    let r = get_volume_average_over_channels(vec![i16::MAX, i16::MAX, i16::MIN, i16::MIN]);
    assert_eq!(r, vec![32766, -32768]);
    assert!(get_volume_average_over_channels(vec![]).is_empty());
}

#[test]
fn volume_profile_points() {
    let e = excerpt(vec![16384; 10000]);
    let times = e.get_sample_times();
    assert_eq!(times.len(), 500);
    assert_eq!(times[0], 1996);
    assert_eq!(times[499], 998_003);
    assert!(times.windows(2).all(|w| w[0] < w[1]));
    let volumes = e.get_volume_plot_data();
    assert_eq!(volumes.len(), 500);
    assert!(volumes.iter().all(|v| *v == 500_000));
}

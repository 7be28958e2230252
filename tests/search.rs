use striputary::audio_excerpt::{excerpt_from_samples, AudioExcerpt};
use striputary::audio_time::AudioSpec;
use striputary::cut::{determine_cut_offset, CutOffset, OffsetSearch};

const RATE: u32 = 10000;

/// An excerpt from `nominal - 3.5 s` to `nominal + 3.5 s`, loud but for the
/// stretch of 0.4 s centered at `nominal + silence_at`.
fn excerpt_with_silence(nominal: i64, silence_at: Option<i64>) -> AudioExcerpt {
    let spec = AudioSpec { channels: 1, sample_rate: RATE };
    let start = nominal - 3_500_000;
    let end = nominal + 3_500_000;
    let mut samples = vec![10000i16; 70000];
    if let Some(s) = silence_at {
        let center = ((s + 3_500_000) / 100) as usize;
        for x in samples.iter_mut().take(center + 2000).skip(center - 2000) {
            *x = 0;
        }
    }
    excerpt_from_samples(spec, start, end, samples).unwrap()
}

#[test]
fn finds_silence_shifted_by_one_point_two_seconds() {
    let nominal = vec![10_000_000i64, 190_000_000, 390_000_000];
    let excerpts: Vec<AudioExcerpt> =
        nominal.iter().map(|t| excerpt_with_silence(*t, Some(1_200_000))).collect();
    let search = OffsetSearch { min_offset: -3_000_000, max_offset: 3_000_000, num_offsets: 1000 };
    let r = determine_cut_offset(&excerpts, &nominal, search).unwrap();
    assert!((r.offset - 1_200_000).abs() <= 6000);
    assert_eq!(r, CutOffset { offset: 1_200_000, quality: 0 });
}

#[test]
fn search_is_deterministic() {
    let nominal = vec![10_000_000i64, 20_000_000];
    let excerpts = vec![
        excerpt_with_silence(10_000_000, Some(-500_000)),
        excerpt_with_silence(20_000_000, Some(700_000)),
    ];
    let search = OffsetSearch::default_search();
    let a = determine_cut_offset(&excerpts, &nominal, search);
    let b = determine_cut_offset(&excerpts, &nominal, search);
    assert_eq!(a, b);
    assert!(a.unwrap().quality > 0);
}

#[test]
fn ties_go_to_the_first_candidate() {
    let nominal = vec![10_000_000i64];
    let excerpts = vec![excerpt_with_silence(10_000_000, None)];
    let search = OffsetSearch { min_offset: -1_000_000, max_offset: 1_000_000, num_offsets: 10 };
    let r = determine_cut_offset(&excerpts, &nominal, search).unwrap();
    assert_eq!(r.offset, -1_000_000);
    assert_eq!(r.quality, 10000 * 1_000_000 / 32768);
}

#[test]
fn without_gaps_the_quality_is_poor() {
    let nominal = vec![5_000_000i64, 6_000_000];
    let excerpts = vec![excerpt_with_silence(5_000_000, None), excerpt_with_silence(6_000_000, None)];
    let r = determine_cut_offset(&excerpts, &nominal, OffsetSearch::default_search()).unwrap();
    assert_eq!(r.quality, 305_175);
}

#[test]
fn empty_input_is_rejected() {
    let search = OffsetSearch::default_search();
    assert_eq!(determine_cut_offset(&[], &[], search), None);
    let excerpts = vec![excerpt_with_silence(10_000_000, None)];
    assert_eq!(determine_cut_offset(&excerpts, &[], search), None);
    let none = OffsetSearch { num_offsets: 0, ..search };
    assert_eq!(determine_cut_offset(&excerpts, &[10_000_000], none), None);
}

#[test]
fn candidates_are_evenly_spaced() {
    // Silence at +1 s; the four candidates are -2, -1, 0 and 1 s.
    let nominal = vec![10_000_000i64];
    let excerpts = vec![excerpt_with_silence(10_000_000, Some(1_000_000))];
    let search = OffsetSearch { min_offset: -2_000_000, max_offset: 2_000_000, num_offsets: 4 };
    let r = determine_cut_offset(&excerpts, &nominal, search).unwrap();
    assert_eq!(r.offset, 1_000_000);
    assert_eq!(r.quality, 0);
}

use striputary::audio_time::{AudioSpec, AudioTime};

fn cd() -> AudioSpec {
    AudioSpec { channels: 2, sample_rate: 44100 }
}

#[test]
fn frame_index_is_time_times_rate() {
    let t = AudioTime::from_time_and_spec(1_500_000, cd());
    assert_eq!(t.frame_num, 66150);
    assert_eq!(t.interleaved_sample_num, 132300);
    assert_eq!(t.time_micros, 1_500_000);
    // 10 µs is less than half a frame at 44.1 kHz: rounded down.
    let t = AudioTime::from_time_and_spec(10, cd());
    assert_eq!(t.frame_num, 0);
    let t = AudioTime::from_time_and_spec(23, cd());
    assert_eq!(t.frame_num, 1);
    assert_eq!(t.interleaved_sample_num, 2);
}

#[test]
fn negative_time_maps_to_index_zero() {
    let t = AudioTime::from_time_and_spec(-2_000_000, cd());
    assert_eq!(t.frame_num, 0);
    assert_eq!(t.interleaved_sample_num, 0);
    assert_eq!(t.time_micros, -2_000_000);
}

#[test]
fn huge_time_saturates_index() {
    let t = AudioTime::from_time_and_spec(i64::MAX, cd());
    assert_eq!(t.frame_num, u32::MAX);
    assert_eq!(t.interleaved_sample_num, u32::MAX);
}

#[test]
fn add_then_sub_gives_back_the_time() {
    let a = AudioTime::from_time_and_spec(3_250_000, cd());
    let b = AudioTime::from_time_and_spec(1_000_001, cd());
    let sum = a.add(b);
    assert_eq!(sum.time_micros, 4_250_001);
    assert_eq!(sum.frame_num, 187425);
    assert_eq!(sum.sub(b), a);
    let diff = a.sub(b);
    assert_eq!(diff.time_micros, 2_249_999);
    assert_eq!(diff.frame_num, 99224);
}

#[test]
fn same_spec_conversion_keeps_format() {
    let a = AudioTime::from_time_and_spec(1_000_000, AudioSpec { channels: 1, sample_rate: 8000 });
    let b = AudioTime::from_time_same_spec(2_000_000, a);
    assert_eq!(b.channels, 1);
    assert_eq!(b.sample_rate, 8000);
    assert_eq!(b.frame_num, 16000);
    assert_eq!(b.interleaved_sample_num, 16000);
}

#[test]
fn compare_orders_by_time_only() {
    let a = AudioTime::from_time_and_spec(1_000_000, cd());
    let b = AudioTime::from_time_and_spec(2_000_000, AudioSpec { channels: 1, sample_rate: 8000 });
    assert_eq!(a.compare(&b), -1);
    assert_eq!(b.compare(&a), 1);
    assert_eq!(a.compare(&a), 0);
}

#[test]
fn operators_order_by_time() {
    let a = AudioTime::from_time_and_spec(1_000_000, cd());
    let b = AudioTime::from_time_and_spec(2_000_000, AudioSpec { channels: 1, sample_rate: 8000 });
    assert!(a < b);
    assert!(b > a);
    assert_eq!(a.partial_cmp(&a), Some(std::cmp::Ordering::Equal));
}

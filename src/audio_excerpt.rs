use vstd::prelude::*;

use crate::audio_time::{audio_time_at, index_at, AudioSpec, AudioTime};

verus! {

/// Half the width, in interleaved samples, of the window that a volume is averaged over.
pub const NUM_SAMPLES_PER_AVERAGE_VOLUME: usize = 2000;

/// Volumes are fractions of full scale, counted in parts of this number.
pub const VOLUME_SCALE: u64 = 1_000_000;

/// The magnitude of the largest 16-bit sample.
pub const FULL_SCALE: u64 = 32768;

/// Number of points of a volume profile.
pub const NUM_PLOT_DATA_POINTS: i64 = 500;

/// A window of interleaved PCM samples, with the times of its first and last sample.
#[derive(Clone, Debug)]
pub struct AudioExcerpt {
    pub samples: Vec<i16>,
    pub start: AudioTime,
    pub end: AudioTime,
    pub spec: AudioSpec,
}

pub open spec fn abs_sample(x: i16) -> int {
    if x < 0 {
        -(x as int)
    } else {
        x as int
    }
}

/// The sum of the magnitudes of `s[lo..hi]`.
pub open spec fn sum_abs(s: Seq<i16>, lo: int, hi: int) -> int
    decreases hi - lo,
{
    if hi <= lo {
        0
    } else {
        sum_abs(s, lo, hi - 1) + abs_sample(s[hi - 1])
    }
}

/// First index of the window around `position` in a buffer of `len` samples.
pub open spec fn window_begin(position: int, len: int) -> int {
    let b = if position < NUM_SAMPLES_PER_AVERAGE_VOLUME as int {
        0
    } else {
        position - NUM_SAMPLES_PER_AVERAGE_VOLUME as int
    };
    if b > len {
        len
    } else {
        b
    }
}

/// One past the last index of the window around `position` in a buffer of `len` samples.
pub open spec fn window_end(position: int, len: int) -> int {
    let e = position + NUM_SAMPLES_PER_AVERAGE_VOLUME as int;
    if e > len {
        len
    } else {
        e
    }
}

/// The mean magnitude of the samples in the window around `position`, as a
/// fraction of full scale in parts of `VOLUME_SCALE` (rounded down); zero where
/// the window holds no sample.
pub open spec fn volume_at_position(s: Seq<i16>, position: int) -> int {
    let b = window_begin(position, s.len() as int);
    let e = window_end(position, s.len() as int);
    if e <= b {
        0
    } else {
        (sum_abs(s, b, e) * VOLUME_SCALE as int) / ((e - b) * FULL_SCALE as int)
    }
}

impl AudioExcerpt {
    /// The start time carries the excerpt's format.
    pub open spec fn wf(&self) -> bool {
        &&& self.spec.wf()
        &&& self.start.wf()
        &&& self.start.spec() == self.spec
    }

    /// The interleaved sample index, relative to the excerpt's start, of a time.
    pub open spec fn position_of(&self, time_micros: int) -> int {
        index_at(time_micros - self.start.time_micros, self.spec.samples_per_second())
    }

    /// The volume of the excerpt at a time.
    pub open spec fn volume_spec(&self, time_micros: int) -> int {
        volume_at_position(self.samples@, self.position_of(time_micros))
    }

    /// The mean magnitude of the samples around `time_micros`, in parts of
    /// `VOLUME_SCALE` of full scale.
    pub fn get_volume_at(&self, time_micros: i64) -> (r: u64)
        requires
            self.wf(),
            i64::MIN <= time_micros - self.start.time_micros <= i64::MAX,
        ensures
            r == self.volume_spec(time_micros as int),
            r <= VOLUME_SCALE,
    {
        let time = AudioTime::from_time_same_spec(time_micros, self.start);
        let position_exact = time.sub(self.start);
        let position = position_exact.interleaved_sample_num as usize;
        let len = self.samples.len();
        let mut begin: usize = if position < NUM_SAMPLES_PER_AVERAGE_VOLUME {
            0
        } else {
            position - NUM_SAMPLES_PER_AVERAGE_VOLUME
        };
        if begin > len {
            begin = len;
        }
        let end: usize = if position > len || len - position < NUM_SAMPLES_PER_AVERAGE_VOLUME {
            len
        } else {
            position + NUM_SAMPLES_PER_AVERAGE_VOLUME
        };
        assert(begin == window_begin(position as int, len as int));
        assert(end == window_end(position as int, len as int));
        if end <= begin {
            return 0;
        }
        let mut sum: u64 = 0;
        let mut i: usize = begin;
        while i < end
            invariant
                begin <= i <= end <= len == self.samples@.len(),
                end - begin <= 2 * NUM_SAMPLES_PER_AVERAGE_VOLUME,
                sum == sum_abs(self.samples@, begin as int, i as int),
                sum <= (i - begin) * FULL_SCALE,
            decreases end - i,
        {
            let x = self.samples[i];
            let a: u64 = if x < 0 {
                (-(x as i32)) as u64
            } else {
                x as u64
            };
            sum = sum + a;
            i = i + 1;
        }
        let n: u64 = (end - begin) as u64;
        proof {
            lemma_volume_bounded(sum as int, n as int);
        }
        (sum * VOLUME_SCALE) / (n * FULL_SCALE)
    }

    /// The time of the excerpt's start relative to which `absolute_time` is measured.
    pub fn get_relative_time(&self, absolute_time: AudioTime) -> (r: AudioTime)
        requires
            self.wf(),
            absolute_time.same_format(self.start),
            i64::MIN <= absolute_time.time_micros - self.start.time_micros <= i64::MAX,
        ensures
            r == audio_time_at(
                absolute_time.time_micros - self.start.time_micros,
                absolute_time.channels,
                absolute_time.sample_rate,
            ),
    {
        absolute_time.sub(self.start)
    }
}

/// The times of a volume profile: `NUM_PLOT_DATA_POINTS` evenly spaced times
/// strictly inside the excerpt, the `x`-th (from 1) at `x / (n + 1)` of its width.
pub open spec fn sample_time(start: int, end: int, x: int) -> int {
    start + (x * (end - start)) / (NUM_PLOT_DATA_POINTS as int + 1)
}

impl AudioExcerpt {
    pub fn get_sample_times(&self) -> (r: Vec<i64>)
        requires
            self.start.time_micros <= self.end.time_micros,
        ensures
            r@.len() == NUM_PLOT_DATA_POINTS,
            forall|i: int|
                0 <= i < r@.len() ==> #[trigger] r@[i] == sample_time(
                    self.start.time_micros as int,
                    self.end.time_micros as int,
                    i + 1,
                ),
            forall|i: int|
                0 <= i < r@.len() ==> self.start.time_micros <= #[trigger] r@[i]
                    <= self.end.time_micros,
    {
        let start = self.start.time_micros as i128;
        let width: i128 = self.end.time_micros as i128 - start;
        let mut r: Vec<i64> = Vec::new();
        let mut x: i64 = 1;
        while x <= NUM_PLOT_DATA_POINTS
            invariant
                1 <= x <= NUM_PLOT_DATA_POINTS + 1,
                start == self.start.time_micros,
                width == self.end.time_micros - self.start.time_micros,
                width >= 0,
                r@.len() == x - 1,
                forall|i: int|
                    0 <= i < r@.len() ==> #[trigger] r@[i] == sample_time(
                        self.start.time_micros as int,
                        self.end.time_micros as int,
                        i + 1,
                    ),
                forall|i: int|
                    0 <= i < r@.len() ==> self.start.time_micros <= #[trigger] r@[i]
                        <= self.end.time_micros,
            decreases NUM_PLOT_DATA_POINTS + 1 - x,
        {
            proof {
                let n = NUM_PLOT_DATA_POINTS as int + 1;
                let width = width as int;
                assert(0 <= x * width <= width * n) by (nonlinear_arith)
                    requires
                        1 <= x <= n,
                        width >= 0,
                ;
                assert(x * width <= 501 * 0x1_0000_0000_0000_0000) by (nonlinear_arith)
                    requires
                        1 <= x <= 501,
                        0 <= width <= 0x1_0000_0000_0000_0000,
                ;
                vstd::arithmetic::div_mod::lemma_div_is_ordered(x as int * width, width * n, n);
                vstd::arithmetic::div_mod::lemma_div_by_multiple(width, n);
                vstd::arithmetic::div_mod::lemma_div_pos_is_pos(x as int * width, n);
            }
            let denominator: i128 = NUM_PLOT_DATA_POINTS as i128 + 1;
            let t = start + (x as i128 * width) / denominator;
            assert(t == sample_time(
                self.start.time_micros as int,
                self.end.time_micros as int,
                x as int,
            ));
            r.push(t as i64);
            x = x + 1;
        }
        r
    }

    /// The volume at each time of `get_sample_times`.
    pub fn get_volume_plot_data(&self) -> (r: Vec<u64>)
        requires
            self.wf(),
            self.start.time_micros <= self.end.time_micros,
            self.end.time_micros - self.start.time_micros <= i64::MAX,
        ensures
            r@.len() == NUM_PLOT_DATA_POINTS,
            forall|i: int|
                0 <= i < r@.len() ==> #[trigger] r@[i] == self.volume_spec(
                    sample_time(
                        self.start.time_micros as int,
                        self.end.time_micros as int,
                        i + 1,
                    ),
                ),
    {
        let times = self.get_sample_times();
        let mut r: Vec<u64> = Vec::new();
        let mut i: usize = 0;
        while i < times.len()
            invariant
                self.wf(),
                self.end.time_micros - self.start.time_micros <= i64::MAX,
                i <= times@.len() == NUM_PLOT_DATA_POINTS,
                r@.len() == i,
                forall|k: int|
                    0 <= k < times@.len() ==> #[trigger] times@[k] == sample_time(
                        self.start.time_micros as int,
                        self.end.time_micros as int,
                        k + 1,
                    ),
                forall|k: int|
                    0 <= k < times@.len() ==> self.start.time_micros <= #[trigger] times@[k]
                        <= self.end.time_micros,
                forall|k: int|
                    0 <= k < i ==> #[trigger] r@[k] == self.volume_spec(
                        sample_time(
                            self.start.time_micros as int,
                            self.end.time_micros as int,
                            k + 1,
                        ),
                    ),
            decreases times@.len() - i,
        {
            let t = times[i];
            r.push(self.get_volume_at(t));
            i = i + 1;
        }
        r
    }
}

impl AudioExcerpt {
    /// Whether the excerpt is well formed.
    pub fn is_wf(&self) -> (r: bool)
        ensures
            r == self.wf(),
    {
        assert(self.spec.channels as int * self.spec.sample_rate as int <= 0xffff * 0xffff_ffff)
            by (nonlinear_arith)
            requires
                self.spec.channels <= 0xffff,
                self.spec.sample_rate <= 0xffff_ffff,
        ;
        let per_second: u64 = self.spec.channels as u64 * self.spec.sample_rate as u64;
        if per_second > u32::MAX as u64 {
            return false;
        }
        if self.start.channels != self.spec.channels || self.start.sample_rate
            != self.spec.sample_rate {
            return false;
        }
        let expected = AudioTime::from_time_and_spec(self.start.time_micros, self.spec);
        expected == self.start
    }
}

/// Fewer samples were available than the window asked for.
#[derive(Clone, Copy, Debug, PartialEq, Eq, Structural)]
pub struct MissingSongError {}

/// Where a window of audio starts in a buffer and how many interleaved samples it spans.
pub open spec fn window_samples(spec: AudioSpec, start_time: int, end_time: int) -> int {
    index_at(end_time - start_time, spec.samples_per_second())
}

/// The frame to seek to and the number of interleaved samples to read for the
/// window from `start_time` to `end_time`.
pub fn excerpt_read_range(spec: AudioSpec, start_time: i64, end_time: i64) -> (r: (u32, u32))
    requires
        spec.wf(),
        i64::MIN <= end_time - start_time <= i64::MAX,
    ensures
        r.0 == index_at(start_time as int, spec.sample_rate as int),
        r.1 == window_samples(spec, start_time as int, end_time as int),
{
    let start = AudioTime::from_time_and_spec(start_time, spec);
    let end = AudioTime::from_time_and_spec(end_time, spec);
    (start.frame_num, end.sub(start).interleaved_sample_num)
}

/// The excerpt from `start_time` to `end_time` made of the samples that were
/// read from its start on; it fails where they are fewer than the window spans.
pub fn excerpt_from_samples(
    spec: AudioSpec,
    start_time: i64,
    end_time: i64,
    samples: Vec<i16>,
) -> (r: Result<AudioExcerpt, MissingSongError>)
    requires
        spec.wf(),
        i64::MIN <= end_time - start_time <= i64::MAX,
    ensures
        r is Err <==> samples@.len() != window_samples(spec, start_time as int, end_time as int),
        r matches Ok(e) ==> {
            &&& e.samples@ == samples@
            &&& e.start == audio_time_at(start_time as int, spec.channels, spec.sample_rate)
            &&& e.end == audio_time_at(end_time as int, spec.channels, spec.sample_rate)
            &&& e.spec == spec
            &&& e.wf()
        },
{
    let start = AudioTime::from_time_and_spec(start_time, spec);
    let end = AudioTime::from_time_and_spec(end_time, spec);
    let num_samples = end.sub(start).interleaved_sample_num;
    if samples.len() != num_samples as usize {
        Err(MissingSongError {  })
    } else {
        Ok(AudioExcerpt { spec, samples, start, end })
    }
}

/// Rust's division by two of a sample, which rounds toward zero.
pub open spec fn half_toward_zero(x: i16) -> int {
    if x >= 0 {
        x as int / 2
    } else {
        -((-(x as int)) / 2)
    }
}

/// Mixes interleaved stereo down to one channel: each pair of samples becomes
/// the sum of its halves. A last unpaired sample is dropped.
pub fn get_volume_average_over_channels(samples: Vec<i16>) -> (r: Vec<i16>)
    ensures
        r@.len() == samples@.len() / 2,
        forall|i: int|
            0 <= i < r@.len() ==> #[trigger] r@[i] == half_toward_zero(samples@[2 * i])
                + half_toward_zero(samples@[2 * i + 1]),
{
    let mut r: Vec<i16> = Vec::new();
    let mut i: usize = 0;
    let len = samples.len();
    let n = len / 2;
    while i < n
        invariant
            len == samples@.len(),
            n == len / 2,
            i <= n,
            r@.len() == i,
            forall|k: int|
                0 <= k < i ==> #[trigger] r@[k] == half_toward_zero(samples@[2 * k])
                    + half_toward_zero(samples@[2 * k + 1]),
        decreases n - i,
    {
        assert(2 * i + 1 < len);
        let j: usize = 2 * i;
        let a = samples[j];
        let b = samples[j + 1];
        let ha: i16 = if a >= 0 { a / 2 } else { -((-(a as i32)) / 2) as i16 };
        let hb: i16 = if b >= 0 { b / 2 } else { -((-(b as i32)) / 2) as i16 };
        r.push(ha + hb);
        i = i + 1;
    }
    r
}

proof fn lemma_volume_bounded(sum: int, n: int)
    requires
        0 <= sum <= n * FULL_SCALE,
        n > 0,
    ensures
        (sum * VOLUME_SCALE as int) / (n * FULL_SCALE as int) <= VOLUME_SCALE,
        (sum * VOLUME_SCALE as int) / (n * FULL_SCALE as int) >= 0,
{
    let d = n * FULL_SCALE as int;
    assert(sum * VOLUME_SCALE as int <= VOLUME_SCALE as int * d) by (nonlinear_arith)
        requires
            0 <= sum <= d,
    ;
    assert(sum * VOLUME_SCALE as int >= 0) by (nonlinear_arith)
        requires
            0 <= sum,
    ;
    vstd::arithmetic::div_mod::lemma_div_is_ordered(
        sum * VOLUME_SCALE as int,
        VOLUME_SCALE as int * d,
        d,
    );
    vstd::arithmetic::div_mod::lemma_div_by_multiple(VOLUME_SCALE as int, d);
    vstd::arithmetic::div_mod::lemma_div_pos_is_pos(sum * VOLUME_SCALE as int, d);
}

/// Every volume lies between silence and full scale.
pub proof fn lemma_volume_in_unit_range(s: Seq<i16>, position: int)
    ensures
        0 <= volume_at_position(s, position) <= VOLUME_SCALE,
{
    let b = window_begin(position, s.len() as int);
    let e = window_end(position, s.len() as int);
    if b < e {
        lemma_sum_abs_bounded(s, b, e);
        lemma_volume_bounded(sum_abs(s, b, e), e - b);
    }
}

proof fn lemma_sum_abs_bounded(s: Seq<i16>, lo: int, hi: int)
    requires
        lo <= hi,
    ensures
        0 <= sum_abs(s, lo, hi) <= (hi - lo) * FULL_SCALE,
    decreases hi - lo,
{
    if lo < hi {
        lemma_sum_abs_bounded(s, lo, hi - 1);
    }
}

} // verus!

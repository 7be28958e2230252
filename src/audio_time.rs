use vstd::prelude::*;

verus! {

/// Number of microseconds in one second.
pub const MICROS_PER_SEC: i64 = 1_000_000;

/// The format of a PCM stream: the parts of it that relate time to sample indices.
#[derive(Clone, Copy, Debug, PartialEq, Eq, Structural)]
pub struct AudioSpec {
    pub channels: u16,
    pub sample_rate: u32,
}

impl AudioSpec {
    /// Interleaved samples per second must fit in a `u32`.
    pub open spec fn wf(&self) -> bool {
        self.channels as int * self.sample_rate as int <= u32::MAX as int
    }

    pub open spec fn samples_per_second(&self) -> int {
        self.channels as int * self.sample_rate as int
    }
}

/// Clamps an integer into the range of `u32`.
pub open spec fn saturate_u32(x: int) -> int {
    if x < 0 {
        0
    } else if x > u32::MAX as int {
        u32::MAX as int
    } else {
        x
    }
}

/// The index of the unit (sample or frame) that is current at `time_micros`,
/// with `per_second` units per second: the floor of `time * per_second`,
/// clamped into `u32`.
pub open spec fn index_at(time_micros: int, per_second: int) -> int {
    saturate_u32((time_micros * per_second) / (MICROS_PER_SEC as int))
}

/// A point in time together with the sample and frame indices that it maps to
/// under a given format.
#[derive(Clone, Copy, Debug, PartialEq, Eq, Structural)]
pub struct AudioTime {
    pub time_micros: i64,
    pub interleaved_sample_num: u32,
    pub frame_num: u32,
    pub channels: u16,
    pub sample_rate: u32,
}

/// The `AudioTime` at `time_micros` under the given format.
pub open spec fn audio_time_at(time_micros: int, channels: u16, sample_rate: u32) -> AudioTime {
    AudioTime {
        time_micros: time_micros as i64,
        interleaved_sample_num: index_at(
            time_micros,
            channels as int * sample_rate as int,
        ) as u32,
        frame_num: index_at(time_micros, sample_rate as int) as u32,
        channels,
        sample_rate,
    }
}

impl AudioTime {
    pub open spec fn spec(&self) -> AudioSpec {
        AudioSpec { channels: self.channels, sample_rate: self.sample_rate }
    }

    /// The indices are those that the time maps to under the format.
    pub open spec fn wf(&self) -> bool {
        &&& self.spec().wf()
        &&& *self == audio_time_at(self.time_micros as int, self.channels, self.sample_rate)
    }

    pub open spec fn same_format(&self, other: AudioTime) -> bool {
        self.channels == other.channels && self.sample_rate == other.sample_rate
    }

    pub fn from_time_and_spec(time_micros: i64, spec: AudioSpec) -> (r: AudioTime)
        requires
            spec.wf(),
        ensures
            r == audio_time_at(time_micros as int, spec.channels, spec.sample_rate),
            r.wf(),
    {
        let per_second: u32 = spec.channels as u32 * spec.sample_rate;
        AudioTime {
            time_micros,
            channels: spec.channels,
            sample_rate: spec.sample_rate,
            interleaved_sample_num: index_of(time_micros, per_second),
            frame_num: index_of(time_micros, spec.sample_rate),
        }
    }

    /// The time `time_micros` under the format of `audiotime`.
    pub fn from_time_same_spec(time_micros: i64, audiotime: AudioTime) -> (r: AudioTime)
        requires
            audiotime.spec().wf(),
        ensures
            r == audio_time_at(time_micros as int, audiotime.channels, audiotime.sample_rate),
            r.wf(),
    {
        AudioTime::from_time_and_spec(time_micros, audiotime.spec_of())
    }

    pub fn spec_of(&self) -> (r: AudioSpec)
        ensures
            r == self.spec(),
    {
        AudioSpec { channels: self.channels, sample_rate: self.sample_rate }
    }

    /// The difference of two times of the same format.
    pub fn sub(self, rhs: AudioTime) -> (r: AudioTime)
        requires
            self.spec().wf(),
            self.same_format(rhs),
            i64::MIN <= self.time_micros - rhs.time_micros <= i64::MAX,
        ensures
            r == audio_time_at(
                self.time_micros - rhs.time_micros,
                self.channels,
                self.sample_rate,
            ),
    {
        AudioTime::from_time_same_spec(self.time_micros - rhs.time_micros, self)
    }

    /// The sum of two times of the same format.
    pub fn add(self, rhs: AudioTime) -> (r: AudioTime)
        requires
            self.spec().wf(),
            self.same_format(rhs),
            i64::MIN <= self.time_micros + rhs.time_micros <= i64::MAX,
        ensures
            r == audio_time_at(
                self.time_micros + rhs.time_micros,
                self.channels,
                self.sample_rate,
            ),
    {
        AudioTime::from_time_same_spec(self.time_micros + rhs.time_micros, self)
    }

    /// Orders two times by their time alone: `-1`, `0` or `1`.
    pub fn compare(&self, other: &AudioTime) -> (r: i8)
        ensures
            r == -1 <==> self.time_micros < other.time_micros,
            r == 0 <==> self.time_micros == other.time_micros,
            r == 1 <==> self.time_micros > other.time_micros,
    {
        if self.time_micros < other.time_micros {
            -1
        } else if self.time_micros == other.time_micros {
            0
        } else {
            1
        }
    }
}

pub open spec fn time_order(a: AudioTime, b: AudioTime) -> Option<core::cmp::Ordering> {
    if a.time_micros < b.time_micros {
        Some(core::cmp::Ordering::Less)
    } else if a.time_micros == b.time_micros {
        Some(core::cmp::Ordering::Equal)
    } else {
        Some(core::cmp::Ordering::Greater)
    }
}

/// Times are ordered by their time alone; the format takes no part.
impl PartialOrd for AudioTime {
    fn partial_cmp(&self, other: &AudioTime) -> (r: Option<core::cmp::Ordering>) {
        if self.time_micros < other.time_micros {
            Some(core::cmp::Ordering::Less)
        } else if self.time_micros == other.time_micros {
            Some(core::cmp::Ordering::Equal)
        } else {
            Some(core::cmp::Ordering::Greater)
        }
    }
}

impl vstd::std_specs::cmp::PartialOrdSpecImpl for AudioTime {
    open spec fn obeys_partial_cmp_spec() -> bool {
        true
    }

    open spec fn partial_cmp_spec(&self, other: &AudioTime) -> Option<core::cmp::Ordering> {
        time_order(*self, *other)
    }
}

/// The index of the unit that is current at `time_micros`, with `per_second`
/// units per second.
fn index_of(time_micros: i64, per_second: u32) -> (r: u32)
    ensures
        r == index_at(time_micros as int, per_second as int),
{
    proof {
        lemma_product_fits(time_micros as int, per_second as int);
    }
    let product: i128 = time_micros as i128 * per_second as i128;
    if product < 0 {
        proof {
            lemma_neg_div(product as int, MICROS_PER_SEC as int);
        }
        0
    } else {
        let q: i128 = product / (MICROS_PER_SEC as i128);
        if q > u32::MAX as i128 {
            u32::MAX
        } else {
            q as u32
        }
    }
}

proof fn lemma_product_fits(t: int, p: int)
    requires
        i64::MIN <= t <= i64::MAX,
        0 <= p <= u32::MAX,
    ensures
        i128::MIN <= t * p <= i128::MAX,
{
    assert(-0x8000_0000_0000_0000 * 0x1_0000_0000 <= t * p <= 0x8000_0000_0000_0000 * 0x1_0000_0000)
        by (nonlinear_arith)
        requires
            -0x8000_0000_0000_0000 <= t <= 0x8000_0000_0000_0000,
            0 <= p <= 0x1_0000_0000,
    ;
}

proof fn lemma_neg_div(x: int, d: int)
    requires
        x < 0,
        d > 0,
    ensures
        x / d < 0,
{
    vstd::arithmetic::div_mod::lemma_fundamental_div_mod(x, d);
    assert(x / d < 0) by (nonlinear_arith)
        requires
            x == d * (x / d) + x % d,
            0 <= x % d < d,
            x < 0,
            d > 0,
    ;
}

/// The frame index is the number of whole frames before the time: it is off
/// the exact product of time and sample rate by less than one frame.
pub proof fn lemma_frame_index_within_one_frame(time_micros: i64, spec: AudioSpec)
    requires
        spec.wf(),
        time_micros >= 0,
        (time_micros as int) * (spec.sample_rate as int) < (u32::MAX as int) * (MICROS_PER_SEC as int),
    ensures
        ({
            let f = audio_time_at(
                time_micros as int,
                spec.channels,
                spec.sample_rate,
            ).frame_num as int;
            let exact = time_micros as int * spec.sample_rate as int;
            f * MICROS_PER_SEC <= exact < (f + 1) * MICROS_PER_SEC
        }),
{
    let exact = time_micros as int * spec.sample_rate as int;
    assert(exact >= 0) by (nonlinear_arith)
        requires
            time_micros >= 0,
            exact == time_micros as int * spec.sample_rate as int,
    ;
    vstd::arithmetic::div_mod::lemma_fundamental_div_mod(exact, MICROS_PER_SEC as int);
    vstd::arithmetic::div_mod::lemma_div_pos_is_pos(exact, MICROS_PER_SEC as int);
    vstd::arithmetic::div_mod::lemma_div_is_ordered(
        exact,
        u32::MAX as int * MICROS_PER_SEC as int,
        MICROS_PER_SEC as int,
    );
    vstd::arithmetic::div_mod::lemma_div_by_multiple(u32::MAX as int, MICROS_PER_SEC as int);
}

/// Adding a time and subtracting it again gives back the time one started with.
pub proof fn lemma_add_sub_round_trip(a: AudioTime, b: AudioTime)
    requires
        a.wf(),
        a.same_format(b),
        i64::MIN <= a.time_micros + b.time_micros <= i64::MAX,
    ensures
        ({
            let sum = audio_time_at(a.time_micros + b.time_micros, a.channels, a.sample_rate);
            audio_time_at(sum.time_micros - b.time_micros, sum.channels, sum.sample_rate) == a
        }),
{
}

} // verus!

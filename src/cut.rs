use vstd::prelude::*;

use crate::audio_excerpt::{AudioExcerpt, VOLUME_SCALE};
use crate::audio_time::{audio_time_at, AudioSpec, AudioTime};
use crate::paths::{
    buffer_file_name, join_spec, music_dir_name, seconds_spec, seconds_string,
    signed_decimal_spec, signed_decimal_string,
};
use crate::song::{album_folder_spec, file_name_spec};
use vstd::string::StringExecFns;
use crate::recording_session::{RecordingSession, RecordingSessionWithPath, SessionPath};
use crate::song::{Song, SongView};

verus! {

/// Smallest offset, in microseconds, that the search tries by default.
pub const MIN_OFFSET: i64 = -3_000_000;

/// Upper end, in microseconds, of the default offset range.
pub const MAX_OFFSET: i64 = 3_000_000;

/// Margin, in microseconds, read on either side of the offset range.
pub const READ_BUFFER: i64 = 500_000;

/// Number of offsets that the search tries by default.
pub const NUM_OFFSETS_TO_TRY: u32 = 1000;

/// Bound on the magnitude of the times, in microseconds, that the search takes
/// (about 73,000 years), so that sums of two of them fit in an `i64`.
pub const TIME_LIMIT: i64 = 2305843009213693952;

pub open spec fn valid_time(t: int) -> bool {
    -(TIME_LIMIT as int) <= t <= TIME_LIMIT as int
}

/// A grid of candidate offsets: `num_offsets` evenly spaced values starting at
/// `min_offset`, the last one below `max_offset`.
#[derive(Clone, Copy, Debug, PartialEq, Eq, Structural)]
pub struct OffsetSearch {
    pub min_offset: i64,
    pub max_offset: i64,
    pub num_offsets: u32,
}

/// The offset that the search found, and the mean volume at the boundaries
/// under it (in parts of `VOLUME_SCALE`): near zero where every boundary lands
/// in silence.
#[derive(Clone, Copy, Debug, PartialEq, Eq, Structural)]
pub struct CutOffset {
    pub offset: i64,
    pub quality: u64,
}

impl OffsetSearch {
    pub open spec fn wf(&self) -> bool {
        &&& self.min_offset <= self.max_offset
        &&& valid_time(self.min_offset as int)
        &&& valid_time(self.max_offset as int)
    }

    /// The candidate offset with index `i`.
    pub open spec fn candidate(&self, i: int) -> int {
        self.min_offset + (i * (self.max_offset - self.min_offset)) / (self.num_offsets as int)
    }

    /// The default grid: 1000 offsets from
    /// -3 s up to 3 s.
    pub fn default_search() -> (r: OffsetSearch)
        ensures
            r.min_offset == MIN_OFFSET,
            r.max_offset == MAX_OFFSET,
            r.num_offsets == NUM_OFFSETS_TO_TRY,
            r.wf(),
    {
        OffsetSearch {
            min_offset: MIN_OFFSET,
            max_offset: MAX_OFFSET,
            num_offsets: NUM_OFFSETS_TO_TRY,
        }
    }
}

/// Number of boundaries that take part: one per pair of excerpt and timestamp.
pub open spec fn num_boundaries(excerpts: Seq<AudioExcerpt>, timestamps: Seq<i64>) -> int {
    if excerpts.len() < timestamps.len() {
        excerpts.len() as int
    } else {
        timestamps.len() as int
    }
}

/// The sum of the volumes of the first `k` excerpts at their timestamps shifted by `offset`.
pub open spec fn total_volume(
    excerpts: Seq<AudioExcerpt>,
    timestamps: Seq<i64>,
    offset: int,
    k: int,
) -> int
    decreases k,
{
    if k <= 0 {
        0
    } else {
        total_volume(excerpts, timestamps, offset, k - 1) + excerpts[k - 1].volume_spec(
            timestamps[k - 1] + offset,
        )
    }
}

/// The total volume at all boundaries under candidate `i` of the search.
pub open spec fn candidate_volume(
    excerpts: Seq<AudioExcerpt>,
    timestamps: Seq<i64>,
    search: OffsetSearch,
    i: int,
) -> int {
    total_volume(
        excerpts,
        timestamps,
        search.candidate(i),
        num_boundaries(excerpts, timestamps),
    )
}

/// Candidate `i` has the least total volume, and every candidate before it a larger one.
pub open spec fn is_first_minimum(
    excerpts: Seq<AudioExcerpt>,
    timestamps: Seq<i64>,
    search: OffsetSearch,
    i: int,
) -> bool {
    &&& 0 <= i < search.num_offsets
    &&& forall|k: int|
        0 <= k < search.num_offsets ==> candidate_volume(excerpts, timestamps, search, i)
            <= #[trigger] candidate_volume(excerpts, timestamps, search, k)
    &&& forall|k: int|
        0 <= k < i ==> candidate_volume(excerpts, timestamps, search, i)
            < #[trigger] candidate_volume(excerpts, timestamps, search, k)
}

/// What the search returns when it has any boundary and any candidate.
pub open spec fn is_search_result(
    excerpts: Seq<AudioExcerpt>,
    timestamps: Seq<i64>,
    search: OffsetSearch,
    r: CutOffset,
) -> bool {
    exists|i: int|
        #[trigger] is_first_minimum(excerpts, timestamps, search, i) && r.offset
            == search.candidate(i) && r.quality == candidate_volume(
            excerpts,
            timestamps,
            search,
            i,
        ) / num_boundaries(excerpts, timestamps)
}

/// The inputs that the search takes: excerpts of a consistent format, and
/// times within `TIME_LIMIT`.
pub open spec fn search_inputs_ok(
    excerpts: Seq<AudioExcerpt>,
    timestamps: Seq<i64>,
    search: OffsetSearch,
) -> bool {
    &&& search.wf()
    &&& forall|j: int| 0 <= j < excerpts.len() ==> (#[trigger] excerpts[j]).wf()
    &&& forall|j: int|
        0 <= j < excerpts.len() ==> valid_time((#[trigger] excerpts[j]).start.time_micros as int)
    &&& forall|j: int| 0 <= j < timestamps.len() ==> valid_time(#[trigger] timestamps[j] as int)
}

proof fn lemma_candidate_in_range(search: OffsetSearch, i: int)
    requires
        search.wf(),
        0 <= i < search.num_offsets,
    ensures
        search.min_offset <= search.candidate(i) <= search.max_offset,
{
    let d = search.max_offset - search.min_offset;
    let n = search.num_offsets as int;
    assert(0 <= i * d <= n * d) by (nonlinear_arith)
        requires
            0 <= i < n,
            d >= 0,
    ;
    vstd::arithmetic::div_mod::lemma_div_is_ordered(i * d, n * d, n);
    vstd::arithmetic::div_mod::lemma_div_by_multiple(d, n);
    vstd::arithmetic::div_mod::lemma_div_pos_is_pos(i * d, n);
}

/// The candidate offset with index `i`.
fn candidate_offset(search: OffsetSearch, i: u32) -> (r: i64)
    requires
        search.wf(),
        i < search.num_offsets,
    ensures
        r == search.candidate(i as int),
        search.min_offset <= r <= search.max_offset,
{
    proof {
        lemma_candidate_in_range(search, i as int);
        let d = search.max_offset - search.min_offset;
        assert(0 <= i * d <= 0x1_0000_0000 * 0x8000_0000_0000_0000) by (nonlinear_arith)
            requires
                0 <= i <= 0x1_0000_0000,
                0 <= d <= 0x8000_0000_0000_0000,
        ;
    }
    let span: i128 = search.max_offset as i128 - search.min_offset as i128;
    let step: i128 = (i as i128 * span) / (search.num_offsets as i128);
    (search.min_offset as i128 + step) as i64
}

/// The sum of the volumes of the first `k` excerpts at their timestamps shifted by `offset`.
fn total_volume_at(excerpts: &[AudioExcerpt], timestamps: &[i64], k: usize, offset: i64) -> (r:
    u128)
    requires
        k <= excerpts@.len(),
        k <= timestamps@.len(),
        valid_time(offset as int),
        forall|j: int| 0 <= j < excerpts@.len() ==> (#[trigger] excerpts@[j]).wf(),
        forall|j: int|
            0 <= j < excerpts@.len() ==> valid_time(
                (#[trigger] excerpts@[j]).start.time_micros as int,
            ),
        forall|j: int| 0 <= j < timestamps@.len() ==> valid_time(#[trigger] timestamps@[j] as int),
    ensures
        r == total_volume(excerpts@, timestamps@, offset as int, k as int),
        r <= k * VOLUME_SCALE,
{
    let mut sum: u128 = 0;
    let mut j: usize = 0;
    while j < k
        invariant
            j <= k <= excerpts@.len(),
            k <= timestamps@.len(),
            valid_time(offset as int),
            forall|j: int| 0 <= j < excerpts@.len() ==> (#[trigger] excerpts@[j]).wf(),
            forall|j: int|
                0 <= j < excerpts@.len() ==> valid_time(
                    (#[trigger] excerpts@[j]).start.time_micros as int,
                ),
            forall|j: int|
                0 <= j < timestamps@.len() ==> valid_time(#[trigger] timestamps@[j] as int),
            sum == total_volume(excerpts@, timestamps@, offset as int, j as int),
            sum <= j * VOLUME_SCALE,
        decreases k - j,
    {
        let excerpt = &excerpts[j];
        let t = timestamps[j];
        assert(valid_time(excerpt.start.time_micros as int));
        assert(valid_time(t as int));
        let v = excerpt.get_volume_at(t + offset);
        sum = sum + v as u128;
        j = j + 1;
    }
    sum
}

/// Finds the offset that puts the boundaries at the quietest spots: for each
/// candidate of the grid, the volumes of all excerpts at their timestamps
/// shifted by the candidate are summed, and the first candidate with the
/// least sum wins. Nothing is found without a boundary or a candidate.
pub fn determine_cut_offset(
    audio_excerpts: &[AudioExcerpt],
    cut_timestamps: &[i64],
    search: OffsetSearch,
) -> (r: Option<CutOffset>)
    requires
        search_inputs_ok(audio_excerpts@, cut_timestamps@, search),
    ensures
        r.is_none() <==> (num_boundaries(audio_excerpts@, cut_timestamps@) == 0
            || search.num_offsets == 0),
        r matches Some(c) ==> is_search_result(audio_excerpts@, cut_timestamps@, search, c),
{
    let k: usize = if audio_excerpts.len() < cut_timestamps.len() {
        audio_excerpts.len()
    } else {
        cut_timestamps.len()
    };
    if k == 0 || search.num_offsets == 0 {
        return None;
    }
    let ghost ex = audio_excerpts@;
    let ghost ts = cut_timestamps@;
    let mut best_offset = candidate_offset(search, 0);
    let mut best_volume = total_volume_at(audio_excerpts, cut_timestamps, k, best_offset);
    let mut best_index: u32 = 0;
    let mut i: u32 = 1;
    while i < search.num_offsets
        invariant
            search_inputs_ok(ex, ts, search),
            ex == audio_excerpts@,
            ts == cut_timestamps@,
            k == num_boundaries(ex, ts),
            k > 0,
            1 <= i <= search.num_offsets,
            best_index < i,
            best_offset == search.candidate(best_index as int),
            best_volume == candidate_volume(ex, ts, search, best_index as int),
            best_volume <= k * VOLUME_SCALE,
            forall|m: int|
                0 <= m < i ==> best_volume <= #[trigger] candidate_volume(ex, ts, search, m),
            forall|m: int|
                0 <= m < best_index ==> best_volume < #[trigger] candidate_volume(
                    ex,
                    ts,
                    search,
                    m,
                ),
        decreases search.num_offsets - i,
    {
        let offset = candidate_offset(search, i);
        let total = total_volume_at(audio_excerpts, cut_timestamps, k, offset);
        if total < best_volume {
            best_volume = total;
            best_offset = offset;
            best_index = i;
        }
        i = i + 1;
    }
    proof {
        vstd::arithmetic::div_mod::lemma_div_is_ordered(
            best_volume as int,
            k as int * VOLUME_SCALE as int,
            k as int,
        );
        vstd::arithmetic::div_mod::lemma_div_by_multiple(VOLUME_SCALE as int, k as int);
        assert(is_first_minimum(ex, ts, search, best_index as int));
    }
    let quality = (best_volume / (k as u128)) as u64;
    let r = CutOffset { offset: best_offset, quality };
    assert(is_search_result(ex, ts, search, r));
    Some(r)
}

/// The search is a function of its inputs: any two results of it on the same
/// excerpts, timestamps and grid are equal.
pub proof fn lemma_search_result_unique(
    excerpts: Seq<AudioExcerpt>,
    timestamps: Seq<i64>,
    search: OffsetSearch,
    a: CutOffset,
    b: CutOffset,
)
    requires
        is_search_result(excerpts, timestamps, search, a),
        is_search_result(excerpts, timestamps, search, b),
    ensures
        a == b,
{
    let i = choose|i: int|
        #[trigger] is_first_minimum(excerpts, timestamps, search, i) && a.offset
            == search.candidate(i) && a.quality == candidate_volume(
            excerpts,
            timestamps,
            search,
            i,
        ) / num_boundaries(excerpts, timestamps);
    let j = choose|j: int|
        #[trigger] is_first_minimum(excerpts, timestamps, search, j) && b.offset
            == search.candidate(j) && b.quality == candidate_volume(
            excerpts,
            timestamps,
            search,
            j,
        ) / num_boundaries(excerpts, timestamps);
    if i < j {
        assert(candidate_volume(excerpts, timestamps, search, j) < candidate_volume(
            excerpts,
            timestamps,
            search,
            i,
        ));
    } else if j < i {
        assert(candidate_volume(excerpts, timestamps, search, i) < candidate_volume(
            excerpts,
            timestamps,
            search,
            j,
        ));
    }
}

/// Total length, in microseconds, of the first `k` songs.
pub open spec fn prefix_length(songs: Seq<Song>, k: int) -> int
    decreases k,
{
    if k <= 0 {
        0
    } else {
        prefix_length(songs, k - 1) + songs[k - 1].length_micros
    }
}

/// The total length, in microseconds, of the songs.
pub fn total_length(songs: &[Song]) -> (r: u128)
    ensures
        r == prefix_length(songs@, songs@.len() as int),
{
    let mut sum: u128 = 0;
    let mut i: usize = 0;
    while i < songs.len()
        invariant
            i <= songs@.len(),
            sum == prefix_length(songs@, i as int),
            sum <= i * 0xffff_ffff_ffff_ffff,
        decreases songs@.len() - i,
    {
        sum = sum + songs[i].length_micros as u128;
        i = i + 1;
    }
    sum
}

proof fn lemma_prefix_length_monotone(songs: Seq<Song>, a: int, b: int)
    requires
        0 <= a <= b,
    ensures
        prefix_length(songs, a) <= prefix_length(songs, b),
    decreases b - a,
{
    if a < b {
        lemma_prefix_length_monotone(songs, a, b - 1);
    }
}

/// The nominal start of each song: the estimated start of the first one plus
/// the lengths of all songs before it.
pub fn get_cut_timestamps_from_song_lengths(songs: &[Song], estimated_time_first_song: i64) -> (r:
    Vec<i64>)
    requires
        estimated_time_first_song + prefix_length(songs@, songs@.len() as int) <= i64::MAX,
    ensures
        r@.len() == songs@.len(),
        forall|i: int|
            0 <= i < songs@.len() ==> #[trigger] r@[i] == estimated_time_first_song
                + prefix_length(songs@, i),
{
    let mut r: Vec<i64> = Vec::new();
    let mut acc: i64 = estimated_time_first_song;
    let mut i: usize = 0;
    while i < songs.len()
        invariant
            i <= songs@.len(),
            estimated_time_first_song + prefix_length(songs@, songs@.len() as int) <= i64::MAX,
            acc == estimated_time_first_song + prefix_length(songs@, i as int),
            r@.len() == i,
            forall|m: int|
                0 <= m < i ==> #[trigger] r@[m] == estimated_time_first_song + prefix_length(
                    songs@,
                    m,
                ),
        decreases songs@.len() - i,
    {
        r.push(acc);
        proof {
            lemma_prefix_length_monotone(songs@, i + 1, songs@.len() as int);
        }
        acc = (acc as i128 + songs[i].length_micros as i128) as i64;
        i = i + 1;
    }
    r
}

/// The span of one song in the recording, in microseconds.
#[derive(Clone, Copy, Debug, PartialEq, Eq, Structural)]
pub struct CutInterval {
    pub start_micros: i64,
    pub end_micros: i64,
}

/// One interval per song: the first starts at the estimated start of the
/// first song plus the offset, each lasts as long as its song, and each
/// starts where the one before it ends.
pub fn build_cut_plan(songs: &[Song], estimated_time_first_song: i64, offset: i64) -> (r: Vec<
    CutInterval,
>)
    requires
        i64::MIN <= estimated_time_first_song + offset,
        estimated_time_first_song + offset + prefix_length(songs@, songs@.len() as int)
            <= i64::MAX,
    ensures
        r@.len() == songs@.len(),
        forall|i: int|
            0 <= i < songs@.len() ==> (#[trigger] r@[i]).start_micros == estimated_time_first_song
                + offset + prefix_length(songs@, i),
        forall|i: int|
            0 <= i < songs@.len() ==> (#[trigger] r@[i]).end_micros - r@[i].start_micros
                == songs@[i].length_micros,
        forall|i: int|
            0 <= i < songs@.len() - 1 ==> (#[trigger] r@[i]).end_micros == r@[i + 1].start_micros,
{
    proof {
        lemma_prefix_length_monotone(songs@, 0, songs@.len() as int);
    }
    let first = estimated_time_first_song + offset;
    let mut r: Vec<CutInterval> = Vec::new();
    let mut acc: i64 = first;
    let mut i: usize = 0;
    while i < songs.len()
        invariant
            i <= songs@.len(),
            first == estimated_time_first_song + offset,
            first + prefix_length(songs@, songs@.len() as int) <= i64::MAX,
            acc == first + prefix_length(songs@, i as int),
            r@.len() == i,
            forall|m: int|
                0 <= m < i ==> (#[trigger] r@[m]).start_micros == first + prefix_length(songs@, m),
            forall|m: int|
                0 <= m < i ==> (#[trigger] r@[m]).end_micros == first + prefix_length(
                    songs@,
                    m + 1,
                ),
        decreases songs@.len() - i,
    {
        proof {
            lemma_prefix_length_monotone(songs@, i + 1, songs@.len() as int);
        }
        let end = (acc as i128 + songs[i].length_micros as i128) as i64;
        r.push(CutInterval { start_micros: acc, end_micros: end });
        acc = end;
        i = i + 1;
    }
    r
}

/// The intervals of a plan cover, without gap or overlap, exactly the total
/// length of the songs.
pub proof fn lemma_cut_plan_span(
    songs: Seq<Song>,
    estimated_time_first_song: int,
    offset: int,
    plan: Seq<CutInterval>,
)
    requires
        songs.len() > 0,
        plan.len() == songs.len(),
        forall|i: int|
            0 <= i < songs.len() ==> (#[trigger] plan[i]).start_micros == estimated_time_first_song
                + offset + prefix_length(songs, i),
        forall|i: int|
            0 <= i < songs.len() ==> (#[trigger] plan[i]).end_micros - plan[i].start_micros
                == songs[i].length_micros,
    ensures
        plan.last().end_micros - plan[0].start_micros == prefix_length(songs, songs.len() as int),
        forall|i: int|
            0 <= i < songs.len() - 1 ==> (#[trigger] plan[i]).end_micros == plan[i + 1].start_micros,
{
    assert(prefix_length(songs, 0) == 0);
    assert forall|i: int| 0 <= i < songs.len() - 1 implies (#[trigger] plan[i]).end_micros
        == plan[i + 1].start_micros by {
        assert(prefix_length(songs, i + 1) == prefix_length(songs, i) + songs[i].length_micros);
    }
    let n = songs.len() - 1;
    assert(prefix_length(songs, n + 1) == prefix_length(songs, n) + songs[n].length_micros);
}

/// The window of audio read around a nominal boundary: the offset range with
/// a margin on either side.
pub fn get_excerpt_window(cut_time: i64) -> (r: (i64, i64))
    requires
        valid_time(cut_time as int),
    ensures
        r.0 == cut_time + MIN_OFFSET - READ_BUFFER,
        r.1 == cut_time + MAX_OFFSET + READ_BUFFER,
{
    (cut_time + MIN_OFFSET - READ_BUFFER, cut_time + MAX_OFFSET + READ_BUFFER)
}

/// The nominal boundaries at which excerpts are read: the start of every song
/// and the end of the last one.
pub fn get_boundary_times(session: &RecordingSessionWithPath) -> (r: Option<Vec<i64>>)
    ensures
        r matches Some(v) ==> {
            &&& v@.len() == session.session.songs@.len() + 1
            &&& forall|i: int|
                0 <= i < v@.len() ==> #[trigger] v@[i] == session.session.estimated_time_first_song
                    + prefix_length(session.session.songs@, i)
            &&& forall|i: int| 0 <= i < v@.len() ==> valid_time(#[trigger] v@[i] as int)
        },
        r is None <==> session.session.estimated_time_first_song + prefix_length(
            session.session.songs@,
            session.session.songs@.len() as int,
        ) > TIME_LIMIT,
{
    let songs = &session.session.songs;
    let first = session.session.estimated_time_first_song;
    let mut r: Vec<i64> = Vec::new();
    if first > TIME_LIMIT as u64 {
        proof {
            lemma_prefix_length_monotone(songs@, 0, songs@.len() as int);
        }
        return None;
    }
    let mut acc: i64 = first as i64;
    r.push(acc);
    let mut i: usize = 0;
    while i < songs.len()
        invariant
            i <= songs@.len(),
            songs == &session.session.songs,
            first == session.session.estimated_time_first_song,
            acc == first + prefix_length(songs@, i as int),
            0 <= acc <= TIME_LIMIT,
            r@.len() == i + 1,
            forall|m: int| 0 <= m <= i ==> #[trigger] r@[m] == first + prefix_length(songs@, m),
            forall|m: int| 0 <= m <= i ==> valid_time(#[trigger] r@[m] as int),
        decreases songs@.len() - i,
    {
        let len = songs[i].length_micros;
        if len > (TIME_LIMIT - acc) as u64 {
            proof {
                lemma_prefix_length_monotone(songs@, i + 1, songs@.len() as int);
            }
            return None;
        }
        acc = acc + len as i64;
        r.push(acc);
        i = i + 1;
    }
    Some(r)
}

/// An excerpt around one boundary, with the songs on either side of it.
#[derive(Clone, Debug)]
pub struct NamedExcerpt {
    pub excerpt: AudioExcerpt,
    pub song_before: Option<Song>,
    pub song_after: Option<Song>,
    pub num: usize,
}

/// The excerpts of a session and the offset that the search proposes for them.
#[derive(Clone, Debug)]
pub struct ExcerptCollection {
    pub session: RecordingSessionWithPath,
    pub excerpts: Vec<NamedExcerpt>,
    pub offset_guess: Option<CutOffset>,
}

/// Whether every excerpt is well formed and starts within `TIME_LIMIT`.
fn excerpts_ok(excerpts: &Vec<AudioExcerpt>) -> (r: bool)
    ensures
        r == (forall|j: int| 0 <= j < excerpts@.len() ==> (#[trigger] excerpts@[j]).wf() && valid_time(excerpts@[j].start.time_micros as int)),
{
    let mut i: usize = 0;
    while i < excerpts.len()
        invariant
            i <= excerpts@.len(),
            forall|j: int| 0 <= j < i ==> (#[trigger] excerpts@[j]).wf() && valid_time(excerpts@[j].start.time_micros as int),
        decreases excerpts@.len() - i,
    {
        let e = &excerpts[i];
        if !e.is_wf() || e.start.time_micros < -TIME_LIMIT || e.start.time_micros > TIME_LIMIT {
            return false;
        }
        i = i + 1;
    }
    true
}

fn song_at(songs: &Vec<Song>, i: usize) -> (r: Option<Song>)
    ensures
        i < songs@.len() ==> r == Some(songs@[i as int]),
        i >= songs@.len() ==> r is None,
{
    if i < songs.len() {
        Some(songs[i].copy())
    } else {
        None
    }
}

/// Gathers the excerpts read at the boundaries of a session, the first one at
/// the start of the first song, and searches the offset for them. Only the
/// songs that start at a boundary with an excerpt take part in the search.
pub fn get_excerpt_collection(session: RecordingSessionWithPath, excerpts: Vec<AudioExcerpt>) -> (r:
    ExcerptCollection)
    ensures
        r.session == session,
        r.excerpts@.len() == excerpts@.len(),
        forall|i: int|
            0 <= i < excerpts@.len() ==> {
                &&& (#[trigger] r.excerpts@[i]).excerpt == excerpts@[i]
                &&& r.excerpts@[i].num == i
                &&& r.excerpts@[i].song_after == if i < session.session.songs@.len() {
                    Some(session.session.songs@[i])
                } else {
                    None
                }
                &&& r.excerpts@[i].song_before == if 0 < i <= session.session.songs@.len() {
                    Some(session.session.songs@[i - 1])
                } else {
                    None
                }
            },
        ({
            let k = if excerpts@.len() < session.session.songs@.len() {
                excerpts@.len() as int
            } else {
                session.session.songs@.len() as int
            };
            let ts = Seq::new(
                k as nat,
                |i: int|
                    (session.session.estimated_time_first_song + prefix_length(
                        session.session.songs@,
                        i,
                    )) as i64,
            );
            let ok = (forall|j: int|
                0 <= j < excerpts@.len() ==> (#[trigger] excerpts@[j]).wf() && valid_time(
                    excerpts@[j].start.time_micros as int,
                )) && session.session.estimated_time_first_song + prefix_length(
                session.session.songs@,
                session.session.songs@.len() as int,
            ) <= TIME_LIMIT;
            &&& ok && k > 0 ==> (r.offset_guess matches Some(c) && is_search_result(
                excerpts@,
                ts,
                OffsetSearch {
                    min_offset: MIN_OFFSET,
                    max_offset: MAX_OFFSET,
                    num_offsets: NUM_OFFSETS_TO_TRY,
                },
                c,
            ))
            &&& !(ok && k > 0) ==> r.offset_guess is None
        }),
{
    let songs = &session.session.songs;
    let k: usize = if excerpts.len() < songs.len() {
        excerpts.len()
    } else {
        songs.len()
    };
    let ghost ts_spec = Seq::new(
        k as nat,
        |i: int|
            (session.session.estimated_time_first_song + prefix_length(
                session.session.songs@,
                i,
            )) as i64,
    );
    let times = get_boundary_times(&session);
    let offset_guess = match times {
        Some(all) => {
            if excerpts_ok(&excerpts) && k > 0 {
                let mut ts: Vec<i64> = Vec::new();
                let mut i: usize = 0;
                while i < k
                    invariant
                        i <= k < all@.len(),
                        k <= excerpts@.len(),
                        all@.len() == session.session.songs@.len() + 1,
                        forall|m: int|
                            0 <= m < all@.len() ==> #[trigger] all@[m]
                                == session.session.estimated_time_first_song + prefix_length(
                                session.session.songs@,
                                m,
                            ),
                        forall|m: int| 0 <= m < all@.len() ==> valid_time(#[trigger] all@[m] as int),
                        ts@.len() == i,
                        ts_spec.len() == k,
                        forall|m: int|
                            0 <= m < k ==> #[trigger] ts_spec[m] == (
                            session.session.estimated_time_first_song + prefix_length(
                                session.session.songs@,
                                m,
                            )) as i64,
                        forall|m: int| 0 <= m < i ==> #[trigger] ts@[m] == ts_spec[m],
                        forall|m: int| 0 <= m < i ==> valid_time(#[trigger] ts@[m] as int),
                    decreases k - i,
                {
                    ts.push(all[i]);
                    i = i + 1;
                }
                assert(ts@ =~= ts_spec);
                determine_cut_offset(excerpts.as_slice(), ts.as_slice(), OffsetSearch::default_search())
            } else {
                None
            }
        },
        None => None,
    };
    let mut named: Vec<NamedExcerpt> = Vec::new();
    let mut excerpts = excerpts;
    let ghost given = excerpts@;
    let n = excerpts.len();
    let mut i: usize = 0;
    while i < n
        invariant
            n == given.len(),
            i <= n,
            excerpts@ == given.subrange(i as int, n as int),
            named@.len() == i,
            songs == &session.session.songs,
            forall|m: int|
                0 <= m < i ==> {
                    &&& (#[trigger] named@[m]).excerpt == given[m]
                    &&& named@[m].num == m
                    &&& named@[m].song_after == if m < songs@.len() {
                        Some(songs@[m])
                    } else {
                        None
                    }
                    &&& named@[m].song_before == if 0 < m <= songs@.len() {
                        Some(songs@[m - 1])
                    } else {
                        None
                    }
                },
        decreases n - i,
    {
        let excerpt = excerpts.remove(0);
        assert(excerpts@ =~= given.subrange(i + 1, n as int));
        let song_before = if i == 0 {
            None
        } else {
            song_at(songs, i - 1)
        };
        let song_after = song_at(songs, i);
        named.push(NamedExcerpt { excerpt, song_before, song_after, num: i });
        i = i + 1;
    }
    ExcerptCollection { session, excerpts: named, offset_guess }
}

/// Number of songs in the chunk that starts at song `first`.
pub open spec fn chunk_len(num_songs: int, first: int, chunk_size: int) -> int {
    if first >= num_songs {
        0
    } else if num_songs - first < chunk_size {
        num_songs - first
    } else {
        chunk_size
    }
}

/// For a search chunk by chunk: the nominal boundaries of the chunk that
/// starts at song `first`, counted from `seed_time`, the time at which that
/// song actually starts according to the chunks before it.
pub fn get_chunk_boundary_times(songs: &[Song], first: usize, chunk_size: usize, seed_time: i64) -> (r:
    Vec<i64>)
    requires
        first <= songs@.len(),
        seed_time + prefix_length(songs@.subrange(first as int, songs@.len() as int), chunk_len(
            songs@.len() as int,
            first as int,
            chunk_size as int,
        )) <= i64::MAX,
    ensures
        r@.len() == chunk_len(songs@.len() as int, first as int, chunk_size as int),
        forall|i: int|
            0 <= i < r@.len() ==> #[trigger] r@[i] == seed_time + prefix_length(
                songs@.subrange(first as int, songs@.len() as int),
                i,
            ),
{
    let k: usize = if first >= songs.len() {
        0
    } else if songs.len() - first < chunk_size {
        songs.len() - first
    } else {
        chunk_size
    };
    let len = songs.len();
    let ghost rest = songs@.subrange(first as int, songs@.len() as int);
    let mut r: Vec<i64> = Vec::new();
    let mut acc: i64 = seed_time;
    let mut i: usize = 0;
    while i < k
        invariant
            k == chunk_len(songs@.len() as int, first as int, chunk_size as int),
            rest == songs@.subrange(first as int, songs@.len() as int),
            i <= k,
            len == songs@.len(),
            first <= len,
            k > 0 ==> first + k <= len,
            seed_time + prefix_length(rest, k as int) <= i64::MAX,
            acc == seed_time + prefix_length(rest, i as int),
            r@.len() == i,
            forall|m: int| 0 <= m < i ==> #[trigger] r@[m] == seed_time + prefix_length(rest, m),
        decreases k - i,
    {
        r.push(acc);
        proof {
            lemma_prefix_length_monotone(rest, i + 1, k as int);
        }
        assert(songs@[first + i] == rest[i as int]);
        acc = (acc as i128 + songs[first + i].length_micros as i128) as i64;
        i = i + 1;
    }
    r
}

/// For a search chunk by chunk: where the chunk that starts at song `first`
/// actually ends, given `seed_time`, where it nominally starts, and the
/// offset that the search found for it. The next chunk is counted from there.
pub fn get_next_chunk_seed(
    songs: &[Song],
    first: usize,
    chunk_size: usize,
    seed_time: i64,
    offset: i64,
) -> (r: i64)
    requires
        first <= songs@.len(),
        i64::MIN <= seed_time + offset,
        seed_time + offset + prefix_length(
            songs@.subrange(first as int, songs@.len() as int),
            chunk_len(songs@.len() as int, first as int, chunk_size as int),
        ) <= i64::MAX,
    ensures
        r == seed_time + offset + prefix_length(
            songs@.subrange(first as int, songs@.len() as int),
            chunk_len(songs@.len() as int, first as int, chunk_size as int),
        ),
{
    let k: usize = if first >= songs.len() {
        0
    } else if songs.len() - first < chunk_size {
        songs.len() - first
    } else {
        chunk_size
    };
    let len = songs.len();
    let ghost rest = songs@.subrange(first as int, songs@.len() as int);
    proof {
        lemma_prefix_length_monotone(rest, 0, k as int);
    }
    let mut acc: i64 = seed_time + offset;
    let mut i: usize = 0;
    while i < k
        invariant
            k == chunk_len(songs@.len() as int, first as int, chunk_size as int),
            rest == songs@.subrange(first as int, songs@.len() as int),
            i <= k,
            len == songs@.len(),
            first <= len,
            k > 0 ==> first + k <= len,
            seed_time + offset + prefix_length(rest, k as int) <= i64::MAX,
            acc == seed_time + offset + prefix_length(rest, i as int),
        decreases k - i,
    {
        proof {
            lemma_prefix_length_monotone(rest, i + 1, k as int);
        }
        assert(songs@[first + i] == rest[i as int]);
        acc = (acc as i128 + songs[first + i].length_micros as i128) as i64;
        i = i + 1;
    }
    acc
}

/// One song bound to the span of the recording that it is cut from.
#[derive(Clone, Debug)]
pub struct CutInfo {
    pub song: Song,
    pub buffer_file: String,
    pub music_dir: String,
    pub start_time: AudioTime,
    pub end_time: AudioTime,
    pub num_in_recording: usize,
}

impl CutInfo {
    pub fn new(
        session: &SessionPath,
        song: Song,
        start_time: AudioTime,
        end_time: AudioTime,
        num_in_recording: usize,
    ) -> (r: CutInfo)
        ensures
            r.song == song,
            r.buffer_file@ == join_spec(session.0@, buffer_file_name()),
            r.music_dir@ == join_spec(session.0@, music_dir_name()),
            r.start_time == start_time,
            r.end_time == end_time,
            r.num_in_recording == num_in_recording,
    {
        let buffer_file = session.get_buffer_file();
        let music_dir = session.get_music_dir();
        CutInfo { song, buffer_file, music_dir, start_time, end_time, num_in_recording }
    }
}

/// `plan` binds each of `songs` to its span: the first starts at `first`, each
/// lasts as long as its song and the next starts where it ends; all files lie
/// in the session directory `path`.
pub open spec fn is_cut_plan(
    path: Seq<char>,
    songs: Seq<Song>,
    first: int,
    spec: AudioSpec,
    plan: Seq<CutInfo>,
) -> bool {
    &&& plan.len() == songs.len()
    &&& forall|i: int|
        0 <= i < plan.len() ==> {
            &&& (#[trigger] plan[i]).song == songs[i]
            &&& plan[i].num_in_recording == i
            &&& plan[i].start_time == audio_time_at(
                first + prefix_length(songs, i),
                spec.channels,
                spec.sample_rate,
            )
            &&& plan[i].end_time == audio_time_at(
                first + prefix_length(songs, i + 1),
                spec.channels,
                spec.sample_rate,
            )
            &&& plan[i].buffer_file@ == join_spec(path, buffer_file_name())
            &&& plan[i].music_dir@ == join_spec(path, music_dir_name())
        }
}

/// The songs of a session bound to the spans that the offset gives them: the
/// first starts at the estimated start plus the offset, and each of the others
/// where the one before it ends.
pub fn get_cut_infos(session: &RecordingSessionWithPath, offset: i64, spec: AudioSpec) -> (r: Vec<
    CutInfo,
>)
    requires
        spec.wf(),
        session.session.estimated_time_first_song <= i64::MAX,
        session.session.estimated_time_first_song + offset + prefix_length(
            session.session.songs@,
            session.session.songs@.len() as int,
        ) <= i64::MAX,
    ensures
        is_cut_plan(
            session.path.0@,
            session.session.songs@,
            session.session.estimated_time_first_song + offset,
            spec,
            r@,
        ),
{
    let songs = &session.session.songs;
    proof {
        lemma_prefix_length_monotone(songs@, 0, songs@.len() as int);
    }
    let first = session.session.estimated_time_first_song as i64;
    let plan = build_cut_plan(songs.as_slice(), first, offset);
    let mut r: Vec<CutInfo> = Vec::new();
    let mut i: usize = 0;
    while i < songs.len()
        invariant
            songs == &session.session.songs,
            spec.wf(),
            first == session.session.estimated_time_first_song,
            i <= songs@.len() == plan@.len(),
            r@.len() == i,
            forall|m: int|
                0 <= m < songs@.len() ==> (#[trigger] plan@[m]).start_micros == first + offset
                    + prefix_length(songs@, m),
            forall|m: int|
                0 <= m < songs@.len() ==> (#[trigger] plan@[m]).end_micros - plan@[m].start_micros
                    == songs@[m].length_micros,
            forall|m: int|
                0 <= m < i ==> {
                    &&& (#[trigger] r@[m]).song == songs@[m]
                    &&& r@[m].num_in_recording == m
                    &&& r@[m].start_time == audio_time_at(
                        first + offset + prefix_length(songs@, m),
                        spec.channels,
                        spec.sample_rate,
                    )
                    &&& r@[m].end_time == audio_time_at(
                        first + offset + prefix_length(songs@, m + 1),
                        spec.channels,
                        spec.sample_rate,
                    )
                    &&& r@[m].buffer_file@ == join_spec(session.path.0@, buffer_file_name())
                    &&& r@[m].music_dir@ == join_spec(session.path.0@, music_dir_name())
                },
        decreases songs@.len() - i,
    {
        let interval = plan[i];
        let start_time = AudioTime::from_time_and_spec(interval.start_micros, spec);
        let end_time = AudioTime::from_time_and_spec(interval.end_micros, spec);
        let info = CutInfo::new(&session.path, songs[i].copy(), start_time, end_time, i);
        r.push(info);
        i = i + 1;
    }
    r
}

/// Number of songs of a collection that can be cut: those that start at an
/// excerpt and end at the next one.
pub open spec fn num_cuttable(num_excerpts: int, num_songs: int) -> int {
    let between = if num_excerpts > 0 {
        num_excerpts - 1
    } else {
        0
    };
    if between < num_songs {
        between
    } else {
        num_songs
    }
}

/// The cut plan of a collection under the offset that the search proposed:
/// the songs that can be cut, bound to their spans in a recording of format
/// `spec`. None without a proposed offset, for a format whose samples per
/// second overflow a `u32`, or where the plan's times overflow an `i64`.
pub fn get_cut_plan(collection: &ExcerptCollection, spec: AudioSpec) -> (r: Option<Vec<CutInfo>>)
    ensures
        ({
            let all = collection.session.session.songs@;
            let songs = all.subrange(
                0,
                num_cuttable(collection.excerpts@.len() as int, all.len() as int),
            );
            let est = collection.session.session.estimated_time_first_song;
            &&& r is Some <==> (collection.offset_guess is Some && spec.wf() && est <= i64::MAX
                && est + collection.offset_guess.unwrap().offset + prefix_length(
                songs,
                songs.len() as int,
            ) <= i64::MAX)
            &&& r matches Some(v) ==> is_cut_plan(
                collection.session.path.0@,
                songs,
                est + collection.offset_guess.unwrap().offset,
                spec,
                v@,
            )
        }),
{
    let offset = match collection.offset_guess {
        Some(c) => c.offset,
        None => {
            return None;
        },
    };
    assert(spec.channels as int * spec.sample_rate as int <= 0xffff * 0xffff_ffff) by (
    nonlinear_arith)
        requires
            spec.channels <= 0xffff,
            spec.sample_rate <= 0xffff_ffff,
    ;
    if spec.channels as u64 * spec.sample_rate as u64 > u32::MAX as u64 {
        return None;
    }
    let all = &collection.session.session.songs;
    let num_excerpts = collection.excerpts.len();
    let between: usize = if num_excerpts > 0 {
        num_excerpts - 1
    } else {
        0
    };
    let k: usize = if between < all.len() {
        between
    } else {
        all.len()
    };
    let mut songs: Vec<Song> = Vec::new();
    let mut i: usize = 0;
    while i < k
        invariant
            k <= all@.len(),
            i <= k,
            songs@ == all@.subrange(0, i as int),
        decreases k - i,
    {
        songs.push(all[i].copy());
        assert(songs@ =~= all@.subrange(0, i + 1));
        i = i + 1;
    }
    let est = collection.session.session.estimated_time_first_song;
    let total = total_length(songs.as_slice());
    if est > i64::MAX as u64 {
        return None;
    }
    let room: i128 = i64::MAX as i128 - offset as i128 - est as i128;
    if room < 0 || total > room as u128 {
        return None;
    }
    let session = RecordingSessionWithPath {
        session: RecordingSession { songs, estimated_time_first_song: est },
        path: SessionPath(collection.session.path.0.clone()),
    };
    Some(get_cut_infos(&session, offset, spec))
}

/// The pair of arguments that tags the output with `key=value`, if the value is there.
pub open spec fn metadata_args(key: Seq<char>, value: Option<Seq<char>>) -> Seq<Seq<char>> {
    match value {
        Some(v) => seq!["-metadata"@, key + v],
        None => Seq::empty(),
    }
}

pub open spec fn track_value(track_number: Option<i64>) -> Option<Seq<char>> {
    match track_number {
        Some(n) => Some(signed_decimal_spec(n as int)),
        None => None,
    }
}

/// The arguments of the encoder that cuts one song out of the recording: the
/// start and duration in seconds, the recording, the codec and bit rate, the
/// tags the song has, and the target file.
pub open spec fn cut_command_spec(info: CutInfo) -> Seq<Seq<char>> {
    let s: SongView = info.song@;
    seq![
        "-ss"@,
        seconds_spec(info.start_time.time_micros as int),
        "-t"@,
        seconds_spec(info.end_time.time_micros - info.start_time.time_micros),
        "-i"@,
        info.buffer_file@,
        "-c:a"@,
        "libopus"@,
        "-b:a"@,
        "192000"@,
    ] + metadata_args("title="@, s.title) + metadata_args("album="@, s.album) + metadata_args(
        "artist="@,
        s.artist,
    ) + metadata_args("albumartist="@, s.artist) + metadata_args(
        "track="@,
        track_value(s.track_number),
    ) + seq![
        "-y"@,
        join_spec(
            album_folder_spec(s, info.music_dir@),
            file_name_spec(s, info.num_in_recording),
        ),
    ]
}

pub open spec fn strings_view(v: Seq<String>) -> Seq<Seq<char>> {
    v.map_values(|x: String| x@)
}

fn push_str(args: &mut Vec<String>, s: &str)
    ensures
        strings_view(final(args)@) == strings_view(old(args)@).push(s@),
{
    args.push(String::from_str(s));
    assert(strings_view(final(args)@) =~= strings_view(old(args)@).push(s@));
}

fn push_string(args: &mut Vec<String>, s: String)
    ensures
        strings_view(final(args)@) == strings_view(old(args)@).push(s@),
{
    let ghost v = s@;
    args.push(s);
    assert(strings_view(final(args)@) =~= strings_view(old(args)@).push(v));
}

fn add_metadata_arg_if_present(args: &mut Vec<String>, key: &str, value: &Option<String>)
    ensures
        strings_view(final(args)@) == strings_view(old(args)@) + metadata_args(
            key@,
            crate::song::opt_string_view(*value),
        ),
{
    match value {
        Some(v) => {
            let ghost before = strings_view(args@);
            push_str(args, "-metadata");
            let mut pair = String::from_str(key);
            pair.append(v.as_str());
            assert(pair@ == key@ + v@);
            let ghost mid = strings_view(args@);
            assert(mid == before.push("-metadata"@));
            args.push(pair);
            assert(strings_view(args@) =~= mid.push(key@ + v@));
            assert(metadata_args(key@, crate::song::opt_string_view(*value)) =~= seq!["-metadata"@, key@ + v@]);
            assert(strings_view(args@) =~= before + metadata_args(
                key@,
                crate::song::opt_string_view(*value),
            ));
        },
        None => {
            assert(strings_view(args@) =~= strings_view(args@) + Seq::<Seq<char>>::empty());
        },
    }
}

/// The arguments of the encoder that cuts the song of `info` out of the recording.
pub fn cut_command_args(info: &CutInfo) -> (r: Vec<String>)
    requires
        i64::MIN <= info.end_time.time_micros - info.start_time.time_micros <= i64::MAX,
    ensures
        strings_view(r@) == cut_command_spec(*info),
{
    let mut args: Vec<String> = Vec::new();
    assert(strings_view(args@) =~= Seq::<Seq<char>>::empty());
    push_str(&mut args, "-ss");
    push_string(&mut args, seconds_string(info.start_time.time_micros));
    push_str(&mut args, "-t");
    push_string(&mut args, seconds_string(info.end_time.time_micros - info.start_time.time_micros));
    push_str(&mut args, "-i");
    push_string(&mut args, info.buffer_file.clone());
    push_str(&mut args, "-c:a");
    push_str(&mut args, "libopus");
    push_str(&mut args, "-b:a");
    push_str(&mut args, "192000");
    let ghost s: SongView = info.song@;
    let ghost head = strings_view(args@);
    assert(head =~= seq![
        "-ss"@,
        seconds_spec(info.start_time.time_micros as int),
        "-t"@,
        seconds_spec(info.end_time.time_micros - info.start_time.time_micros),
        "-i"@,
        info.buffer_file@,
        "-c:a"@,
        "libopus"@,
        "-b:a"@,
        "192000"@,
    ]);
    add_metadata_arg_if_present(&mut args, "title=", &info.song.title);
    add_metadata_arg_if_present(&mut args, "album=", &info.song.album);
    add_metadata_arg_if_present(&mut args, "artist=", &info.song.artist);
    add_metadata_arg_if_present(&mut args, "albumartist=", &info.song.artist);
    let track = match info.song.track_number {
        Some(n) => Some(signed_decimal_string(n)),
        None => None,
    };
    assert(crate::song::opt_string_view(track) == track_value(s.track_number));
    add_metadata_arg_if_present(&mut args, "track=", &track);
    let ghost body = strings_view(args@);
    assert(body =~= head + metadata_args("title="@, s.title) + metadata_args("album="@, s.album)
        + metadata_args("artist="@, s.artist) + metadata_args("albumartist="@, s.artist)
        + metadata_args("track="@, track_value(s.track_number)));
    push_str(&mut args, "-y");
    let target = info.song.get_target_file(info.music_dir.as_str(), info.num_in_recording);
    let ghost t = target@;
    push_string(&mut args, target);
    assert(strings_view(args@) =~= body.push("-y"@).push(t));
    assert(strings_view(args@) =~= cut_command_spec(*info));
    args
}

} // verus!

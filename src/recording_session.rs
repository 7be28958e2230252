use vstd::prelude::*;

use crate::dbus_event::{DbusEvent, PlaybackStatus, TimedDbusEvent};
use crate::paths::{
    buffer_file_name, default_buffer_file, default_music_dir, default_session_file, join_path,
    join_spec, music_dir_name, session_file_name,
};
use crate::song::{Song, SongView};

verus! {

/// Why a recording ended.
#[derive(Clone, Copy, Debug, PartialEq, Eq, Structural)]
pub enum RecordingExitStatus {
    FinishedOrInterrupted,
    AlbumFinished,
    NoNewSongForTooLong,
}

#[derive(Clone, Copy, Debug, PartialEq, Eq, Structural)]
pub enum RecordingStatus {
    Running,
    Finished(RecordingExitStatus),
}

/// The songs of one continuous capture, in order, and the estimated time, in
/// microseconds since the capture started, at which the first of them began.
#[derive(Clone, Debug)]
pub struct RecordingSession {
    pub songs: Vec<Song>,
    pub estimated_time_first_song: u64,
}

pub open spec fn songs_view(songs: Seq<Song>) -> Seq<SongView> {
    songs.map_values(|s: Song| s@)
}

/// The state of a reconstruction: the songs so far, the time of the first
/// event that concerns the timeline, and whether playback was paused.
pub struct TimelineModel {
    pub songs: Seq<SongView>,
    pub start: Option<u64>,
    pub finished: bool,
}

pub open spec fn initial_timeline() -> TimelineModel {
    TimelineModel { songs: Seq::empty(), start: None, finished: false }
}

/// A reported song is appended unless its length is zero or it repeats the
/// song that was appended last.
pub open spec fn accepts_song(songs: Seq<SongView>, s: SongView) -> bool {
    &&& s.length_micros != 0
    &&& !(songs.len() > 0 && songs.last() == s)
}

/// Whether an event counts for the estimated start of the first song.
pub open spec fn marks_start(e: DbusEvent) -> bool {
    match e {
        DbusEvent::NewSong(_) => true,
        DbusEvent::StatusChanged(_) => true,
        _ => false,
    }
}

/// The effect of one event on a reconstruction. After a pause nothing changes.
pub open spec fn timeline_step(m: TimelineModel, e: TimedDbusEvent) -> TimelineModel {
    if m.finished {
        m
    } else {
        let start = if m.start.is_none() && marks_start(e.event) {
            Some(e.timestamp.time_since_start_micros)
        } else {
            m.start
        };
        match e.event {
            DbusEvent::NewSong(s) => TimelineModel {
                songs: if accepts_song(m.songs, s@) {
                    m.songs.push(s@)
                } else {
                    m.songs
                },
                start,
                finished: false,
            },
            DbusEvent::StatusChanged(PlaybackStatus::Paused) => TimelineModel {
                songs: m.songs,
                start,
                finished: true,
            },
            _ => TimelineModel { songs: m.songs, start, finished: false },
        }
    }
}

/// The reconstruction after a sequence of events.
pub open spec fn timeline_of(events: Seq<TimedDbusEvent>) -> TimelineModel
    decreases events.len(),
{
    if events.len() == 0 {
        initial_timeline()
    } else {
        timeline_step(timeline_of(events.drop_last()), events.last())
    }
}

pub open spec fn status_of(m: TimelineModel) -> RecordingStatus {
    if m.finished {
        RecordingStatus::Finished(RecordingExitStatus::FinishedOrInterrupted)
    } else {
        RecordingStatus::Running
    }
}

pub open spec fn start_of(m: TimelineModel) -> u64 {
    match m.start {
        Some(t) => t,
        None => 0,
    }
}

/// Builds a session from player events, one event at a time.
pub struct TimelineReconstructor {
    songs: Vec<Song>,
    start: Option<u64>,
    finished: bool,
}

impl View for TimelineReconstructor {
    type V = TimelineModel;

    closed spec fn view(&self) -> TimelineModel {
        TimelineModel { songs: songs_view(self.songs@), start: self.start, finished: self.finished }
    }
}

impl TimelineReconstructor {
    pub fn new() -> (r: TimelineReconstructor)
        ensures
            r@ == initial_timeline(),
    {
        let r = TimelineReconstructor { songs: Vec::new(), start: None, finished: false };
        assert(r@.songs =~= Seq::<SongView>::empty());
        r
    }

    /// Takes one event into account and tells whether the recording goes on.
    pub fn handle_event(&mut self, event: &TimedDbusEvent) -> (r: RecordingStatus)
        ensures
            final(self)@ == timeline_step(old(self)@, *event),
            r == status_of(final(self)@),
    {
        if self.finished {
            return RecordingStatus::Finished(RecordingExitStatus::FinishedOrInterrupted);
        }
        let marks = match &event.event {
            DbusEvent::NewSong(_) => true,
            DbusEvent::StatusChanged(_) => true,
            _ => false,
        };
        if self.start.is_none() && marks {
            self.start = Some(event.timestamp.time_since_start_micros);
        }
        match &event.event {
            DbusEvent::NewSong(song) => {
                let n = self.songs.len();
                let repeats = n > 0 && self.songs[n - 1].same_as(song);
                proof {
                    if n > 0 {
                        assert(songs_view(self.songs@).last() == self.songs@[n - 1]@);
                    }
                }
                if song.length_micros != 0 && !repeats {
                    let ghost before = self.songs@;
                    self.songs.push(song.copy());
                    assert(songs_view(self.songs@) =~= songs_view(before).push(song@));
                }
                RecordingStatus::Running
            },
            DbusEvent::StatusChanged(PlaybackStatus::Paused) => {
                self.finished = true;
                RecordingStatus::Finished(RecordingExitStatus::FinishedOrInterrupted)
            },
            _ => RecordingStatus::Running,
        }
    }

    /// The session built so far.
    pub fn session(&self) -> (r: RecordingSession)
        ensures
            songs_view(r.songs@) == self@.songs,
            r.estimated_time_first_song == start_of(self@),
    {
        let mut songs: Vec<Song> = Vec::new();
        let mut i: usize = 0;
        while i < self.songs.len()
            invariant
                i <= self.songs@.len(),
                songs@.len() == i,
                forall|k: int| 0 <= k < i ==> songs@[k] == self.songs@[k],
            decreases self.songs@.len() - i,
        {
            songs.push(self.songs[i].copy());
            i = i + 1;
        }
        assert(songs_view(songs@) =~= songs_view(self.songs@));
        let start = match self.start {
            Some(t) => t,
            None => 0,
        };
        RecordingSession { songs, estimated_time_first_song: start }
    }

    /// The songs appended from index `start` on, to report them as they come.
    pub fn songs_from(&self, start: usize) -> (r: Vec<Song>)
        ensures
            start <= self@.songs.len() ==> songs_view(r@) == self@.songs.subrange(
                start as int,
                self@.songs.len() as int,
            ),
            start > self@.songs.len() ==> r@.len() == 0,
    {
        let mut r: Vec<Song> = Vec::new();
        if start > self.songs.len() {
            return r;
        }
        let mut i: usize = start;
        while i < self.songs.len()
            invariant
                start <= i <= self.songs@.len(),
                songs_view(r@) == songs_view(self.songs@).subrange(start as int, i as int),
            decreases self.songs@.len() - i,
        {
            let ghost before = songs_view(r@);
            r.push(self.songs[i].copy());
            assert(songs_view(r@) =~= before.push(self.songs@[i as int]@));
            assert(songs_view(self.songs@).subrange(start as int, i + 1) =~= songs_view(
                self.songs@,
            ).subrange(start as int, i as int).push(self.songs@[i as int]@));
            i = i + 1;
        }
        r
    }

    /// Whether the recording has waited too long for a new song: more than
    /// `limit_micros` have passed since the last song should have ended. Never
    /// before the first song.
    pub fn no_new_song_for_too_long(&self, micros_since_last_song: u64, limit_micros: u64) -> (r:
        bool)
        ensures
            r == (self@.songs.len() > 0 && micros_since_last_song > self@.songs.last().length_micros
                + limit_micros),
    {
        let n = self.songs.len();
        if n == 0 {
            return false;
        }
        proof {
            assert(songs_view(self.songs@).last() == self.songs@[n - 1]@);
        }
        micros_since_last_song as u128 > self.songs[n - 1].length_micros as u128
            + limit_micros as u128
    }

    /// What the recording does next: it ends when playback was paused, or when
    /// the wait for a new song ran out; otherwise it goes on.
    pub fn status(&self, micros_since_last_song: u64, limit_micros: u64) -> (r: RecordingStatus)
        ensures
            self@.finished ==> r == RecordingStatus::Finished(
                RecordingExitStatus::FinishedOrInterrupted,
            ),
            !self@.finished ==> (r == if self@.songs.len() > 0 && micros_since_last_song
                > self@.songs.last().length_micros + limit_micros {
                RecordingStatus::Finished(RecordingExitStatus::NoNewSongForTooLong)
            } else {
                RecordingStatus::Running
            }),
    {
        if self.finished {
            RecordingStatus::Finished(RecordingExitStatus::FinishedOrInterrupted)
        } else if self.no_new_song_for_too_long(micros_since_last_song, limit_micros) {
            RecordingStatus::Finished(RecordingExitStatus::NoNewSongForTooLong)
        } else {
            RecordingStatus::Running
        }
    }

    pub fn num_songs(&self) -> (r: usize)
        ensures
            r == self@.songs.len(),
    {
        self.songs.len()
    }
}

impl RecordingSession {
    /// Reconstructs the session from a sequence of player events, and tells
    /// whether playback was paused on the way.
    pub fn reconstruct(events: &[TimedDbusEvent]) -> (r: (RecordingSession, RecordingStatus))
        ensures
            songs_view(r.0.songs@) == timeline_of(events@).songs,
            r.0.estimated_time_first_song == start_of(timeline_of(events@)),
            r.1 == status_of(timeline_of(events@)),
    {
        let mut builder = TimelineReconstructor::new();
        let mut i: usize = 0;
        let mut done = false;
        while i < events.len() && !done
            invariant
                i <= events@.len(),
                builder@ == timeline_of(events@.subrange(0, i as int)),
                done ==> builder@ == timeline_of(events@),
            decreases events@.len() - i,
        {
            proof {
                assert(events@.subrange(0, i + 1).drop_last() =~= events@.subrange(0, i as int));
            }
            let status = builder.handle_event(&events[i]);
            i = i + 1;
            if status != RecordingStatus::Running {
                proof {
                    lemma_finished_stays(events@, i as int);
                }
                done = true;
            }
        }
        if !done {
            assert(events@.subrange(0, events@.len() as int) =~= events@);
        }
        let session = builder.session();
        let status = if builder.finished {
            RecordingStatus::Finished(RecordingExitStatus::FinishedOrInterrupted)
        } else {
            RecordingStatus::Running
        };
        (session, status)
    }

    /// The session that a sequence of player events describes.
    pub fn from_events(events: &[TimedDbusEvent]) -> (r: RecordingSession)
        ensures
            songs_view(r.songs@) == timeline_of(events@).songs,
            r.estimated_time_first_song == start_of(timeline_of(events@)),
    {
        RecordingSession::reconstruct(events).0
    }
}

/// Once playback was paused, later events change nothing.
proof fn lemma_finished_stays(events: Seq<TimedDbusEvent>, i: int)
    requires
        0 <= i <= events.len(),
        timeline_of(events.subrange(0, i)).finished,
    ensures
        timeline_of(events) == timeline_of(events.subrange(0, i)),
    decreases events.len() - i,
{
    if i < events.len() {
        assert(events.subrange(0, i + 1).drop_last() =~= events.subrange(0, i));
        lemma_finished_stays(events, i + 1);
    } else {
        assert(events.subrange(0, i) =~= events);
    }
}

/// No reconstructed session holds a song of length zero, wherever such an
/// entry stands among the events.
pub proof fn lemma_no_zero_length_songs(events: Seq<TimedDbusEvent>)
    ensures
        forall|k: int|
            0 <= k < timeline_of(events).songs.len() ==> timeline_of(events).songs[k].length_micros
                != 0,
    decreases events.len(),
{
    if events.len() > 0 {
        lemma_no_zero_length_songs(events.drop_last());
    }
}

/// No song of a reconstructed session directly repeats the one before it.
pub proof fn lemma_no_repeated_songs(events: Seq<TimedDbusEvent>)
    ensures
        forall|k: int|
            0 < k < timeline_of(events).songs.len() ==> #[trigger] timeline_of(events).songs[k]
                != timeline_of(events).songs[k - 1],
    decreases events.len(),
{
    if events.len() > 0 {
        lemma_no_repeated_songs(events.drop_last());
    }
}

/// The directory that holds one session: its session file, its recording and
/// the songs cut from it.
#[derive(Clone, Debug)]
pub struct SessionPath(pub String);

impl SessionPath {
    pub fn get_yaml_file(&self) -> (r: String)
        ensures
            r@ == join_spec(self.0@, session_file_name()),
    {
        join_path(self.0.as_str(), default_session_file())
    }

    pub fn get_buffer_file(&self) -> (r: String)
        ensures
            r@ == join_spec(self.0@, buffer_file_name()),
    {
        join_path(self.0.as_str(), default_buffer_file())
    }

    pub fn get_music_dir(&self) -> (r: String)
        ensures
            r@ == join_spec(self.0@, music_dir_name()),
    {
        join_path(self.0.as_str(), default_music_dir())
    }
}

/// A session together with the directory it is stored in.
#[derive(Clone, Debug)]
pub struct RecordingSessionWithPath {
    pub session: RecordingSession,
    pub path: SessionPath,
}

} // verus!

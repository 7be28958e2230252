use vstd::prelude::*;
use vstd::string::StrSliceExecFns;
use vstd::string::StringExecFns;

use crate::song::Song;

verus! {

#[derive(Clone, Copy, Debug, PartialEq, Eq, Structural)]
pub enum PlaybackStatus {
    Playing,
    Paused,
}

/// Notices about what the player can do; they carry nothing about the timeline.
#[derive(Clone, Copy, Debug, PartialEq, Eq, Structural)]
pub enum PlayerInformation {
    CanGoPrevious(bool),
    CanGoNext(bool),
}

/// What the player reports.
#[derive(Clone, Debug)]
pub enum DbusEvent {
    NewSong(Song),
    NewInvalidSong(Song),
    StatusChanged(PlaybackStatus),
    PlayerInformation(PlayerInformation),
}

/// Microseconds since the recording started.
#[derive(Clone, Copy, Debug, PartialEq, Eq, Structural)]
pub struct Timestamp {
    pub time_since_start_micros: u64,
}

#[derive(Clone, Debug)]
pub struct TimedDbusEvent {
    pub event: DbusEvent,
    pub timestamp: Timestamp,
}

/// Some players announce a song of length zero before its real metadata
/// arrives; such an entry is not a song.
pub open spec fn is_valid_song_spec(length_micros: u64) -> bool {
    length_micros != 0
}

pub fn is_valid_song(song: &Song) -> (r: bool)
    ensures
        r == is_valid_song_spec(song.length_micros),
{
    song.length_micros != 0
}

/// Sorts a song reported by the player into a valid or an invalid one.
pub fn new_song_event(song: Song) -> (r: DbusEvent)
    ensures
        is_valid_song_spec(song.length_micros) ==> r == DbusEvent::NewSong(song),
        !is_valid_song_spec(song.length_micros) ==> r == DbusEvent::NewInvalidSong(song),
{
    if is_valid_song(&song) {
        DbusEvent::NewSong(song)
    } else {
        DbusEvent::NewInvalidSong(song)
    }
}

/// The playback status that a player reports as text; an unknown word is none.
pub open spec fn status_spec(status: Seq<char>) -> Option<PlaybackStatus> {
    if status == "Paused"@ {
        Some(PlaybackStatus::Paused)
    } else if status == "Playing"@ {
        Some(PlaybackStatus::Playing)
    } else {
        None
    }
}

fn str_eq(a: &str, b: &str) -> (r: bool)
    ensures
        r == (a@ == b@),
{
    let x = String::from_str(a);
    let y = String::from_str(b);
    <String as PartialEq>::eq(&x, &y)
}

pub fn get_status_changed(status: &str) -> (r: Option<PlaybackStatus>)
    ensures
        r == status_spec(status@),
{
    if str_eq(status, "Paused") {
        Some(PlaybackStatus::Paused)
    } else if str_eq(status, "Playing") {
        Some(PlaybackStatus::Playing)
    } else {
        None
    }
}

/// The notice about what the player can do, from the values of its
/// `CanGoPrevious` and `CanGoNext` properties where they changed; the first
/// one wins.
pub fn get_player_information(can_go_previous: Option<u64>, can_go_next: Option<u64>) -> (r: Option<
    PlayerInformation,
>)
    ensures
        r == match (can_go_previous, can_go_next) {
            (Some(p), _) => Some(PlayerInformation::CanGoPrevious(p != 0)),
            (None, Some(n)) => Some(PlayerInformation::CanGoNext(n != 0)),
            (None, None) => None::<PlayerInformation>,
        },
{
    match (can_go_previous, can_go_next) {
        (Some(p), _) => Some(PlayerInformation::CanGoPrevious(p != 0)),
        (None, Some(n)) => Some(PlayerInformation::CanGoNext(n != 0)),
        (None, None) => None,
    }
}

impl DbusEvent {
    /// The event that a change of the player's properties stands for: a
    /// status change if the status changed, else a notice about what the
    /// player can do, else a new song.
    pub fn from_changes(
        status: Option<PlaybackStatus>,
        information: Option<PlayerInformation>,
        song: Song,
    ) -> (r: DbusEvent)
        ensures
            r == match (status, information) {
                (Some(s), _) => DbusEvent::StatusChanged(s),
                (None, Some(i)) => DbusEvent::PlayerInformation(i),
                (None, None) => if is_valid_song_spec(song.length_micros) {
                    DbusEvent::NewSong(song)
                } else {
                    DbusEvent::NewInvalidSong(song)
                },
            },
    {
        match (status, information) {
            (Some(s), _) => DbusEvent::StatusChanged(s),
            (None, Some(i)) => DbusEvent::PlayerInformation(i),
            (None, None) => new_song_event(song),
        }
    }
}

/// A song length as the player reports it, in microseconds: players differ
/// in how they encode it.
#[derive(Clone, Debug)]
pub enum LengthValue {
    Unsigned(u64),
    Signed(i64),
    Text(String),
}

pub open spec fn is_digit(c: char) -> bool {
    '0' <= c <= '9'
}

pub open spec fn all_digits(s: Seq<char>) -> bool {
    forall|i: int| 0 <= i < s.len() ==> is_digit(#[trigger] s[i])
}

/// The number that a string of decimal digits denotes.
pub open spec fn digits_value(s: Seq<char>) -> int
    decreases s.len(),
{
    if s.len() == 0 {
        0
    } else {
        digits_value(s.drop_last()) * 10 + (s.last() as int - '0' as int)
    }
}

/// An unsigned decimal integer that fits in a `u64`, with an optional leading
/// plus sign, as `u64`'s `FromStr` reads it.
pub open spec fn parse_u64_spec(s: Seq<char>) -> Option<u64> {
    let body = if s.len() > 0 && s[0] == '+' {
        s.drop_first()
    } else {
        s
    };
    if body.len() > 0 && all_digits(body) && digits_value(body) <= u64::MAX {
        Some(digits_value(body) as u64)
    } else {
        None
    }
}

proof fn lemma_digits_value_grows(s: Seq<char>, i: int, j: int)
    requires
        0 <= i <= j <= s.len(),
        all_digits(s),
    ensures
        digits_value(s.subrange(0, i)) <= digits_value(s.subrange(0, j)),
        digits_value(s.subrange(0, i)) >= 0,
    decreases j - i,
{
    if i < j {
        lemma_digits_value_grows(s, i, j - 1);
        assert(s.subrange(0, j).drop_last() =~= s.subrange(0, j - 1));
        assert(is_digit(s[j - 1]));
    } else {
        lemma_digits_value_nonneg(s.subrange(0, i));
    }
}

proof fn lemma_digits_value_nonneg(s: Seq<char>)
    requires
        all_digits(s),
    ensures
        digits_value(s) >= 0,
    decreases s.len(),
{
    if s.len() > 0 {
        assert(is_digit(s.last()));
        lemma_digits_value_nonneg(s.drop_last());
    }
}

/// Reads an unsigned decimal integer.
pub fn parse_u64(s: &str) -> (r: Option<u64>)
    ensures
        r == parse_u64_spec(s@),
{
    let len = s.unicode_len();
    let start: usize = if len > 0 && s.get_char(0) == '+' {
        1
    } else {
        0
    };
    let ghost body = s@.subrange(start as int, len as int);
    assert(body =~= (if s@.len() > 0 && s@[0] == '+' {
        s@.drop_first()
    } else {
        s@
    }));
    if start == len {
        return None;
    }
    let mut acc: u64 = 0;
    let mut i: usize = start;
    while i < len
        invariant
            start <= i <= len == s@.len(),
            body == s@.subrange(start as int, len as int),
            body == (if s@.len() > 0 && s@[0] == '+' {
                s@.drop_first()
            } else {
                s@
            }),
            all_digits(body.subrange(0, i - start)),
            acc == digits_value(body.subrange(0, i - start)),
        decreases len - i,
    {
        let c = s.get_char(i);
        let ghost k = i - start;
        assert(body.subrange(0, k + 1).drop_last() =~= body.subrange(0, k));
        assert(body[k] == c);
        if c < '0' || c > '9' {
            assert(!is_digit(body[k]));
            assert(!all_digits(body));
            return None;
        }
        let d = (c as u32 - '0' as u32) as u64;
        assert(all_digits(body.subrange(0, k + 1))) by {
            assert forall|m: int| 0 <= m < k + 1 implies is_digit(
                #[trigger] body.subrange(0, k + 1)[m],
            ) by {
                if m < k {
                    assert(body.subrange(0, k + 1)[m] == body.subrange(0, k)[m]);
                }
            }
        }
        if acc > (u64::MAX - d) / 10 {
            proof {
                assert(acc * 10 + d > u64::MAX) by (nonlinear_arith)
                    requires
                        acc > (u64::MAX - d) / 10,
                        d <= 9,
                ;
                assert(body.subrange(0, k + 1).last() == c);
                assert(digits_value(body.subrange(0, k + 1)) == acc * 10 + d);
                if all_digits(body) {
                    lemma_digits_value_grows(body, k + 1, body.len() as int);
                    assert(body.subrange(0, body.len() as int) =~= body);
                }
            }
            return None;
        }
        acc = acc * 10 + d;
        i = i + 1;
    }
    assert(body.subrange(0, len - start) =~= body);
    Some(acc)
}

/// The length in microseconds that the player reported; a negative or
/// unreadable length is none.
pub open spec fn length_spec(v: LengthValue) -> Option<u64> {
    match v {
        LengthValue::Unsigned(u) => Some(u),
        LengthValue::Signed(i) => if i >= 0 {
            Some(i as u64)
        } else {
            None
        },
        LengthValue::Text(t) => parse_u64_spec(t@),
    }
}

pub fn get_song_length(v: &LengthValue) -> (r: Option<u64>)
    ensures
        r == length_spec(*v),
{
    match v {
        LengthValue::Unsigned(u) => Some(*u),
        LengthValue::Signed(i) => if *i >= 0 {
            Some(*i as u64)
        } else {
            None
        },
        LengthValue::Text(t) => parse_u64(t.as_str()),
    }
}

impl Song {
    /// The song that a player's metadata describes; none where its length
    /// cannot be read.
    pub fn from_metadata(
        artist: Option<String>,
        album: Option<String>,
        title: Option<String>,
        track_number: Option<i64>,
        length: &LengthValue,
    ) -> (r: Option<Song>)
        ensures
            r is None <==> length_spec(*length) is None,
            r matches Some(s) ==> s == (Song {
                artist,
                album,
                title,
                track_number,
                length_micros: length_spec(*length).unwrap(),
            }),
    {
        match get_song_length(length) {
            Some(length_micros) => Some(Song { artist, album, title, track_number, length_micros }),
            None => None,
        }
    }
}

} // verus!

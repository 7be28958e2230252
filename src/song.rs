use vstd::prelude::*;
use vstd::string::StrSliceExecFns;
use vstd::string::StringExecFns;

use crate::paths::{decimal_spec, join_path, join_spec, signed_decimal_spec, signed_decimal_string, decimal_string};

verus! {

/// What the player reports of a song; the length is in microseconds.
#[derive(Clone, Debug)]
pub struct Song {
    pub artist: Option<String>,
    pub album: Option<String>,
    pub title: Option<String>,
    pub track_number: Option<i64>,
    pub length_micros: u64,
}

/// The mathematical content of a `Song`.
pub struct SongView {
    pub artist: Option<Seq<char>>,
    pub album: Option<Seq<char>>,
    pub title: Option<Seq<char>>,
    pub track_number: Option<i64>,
    pub length_micros: u64,
}

pub open spec fn opt_string_view(s: Option<String>) -> Option<Seq<char>> {
    match s {
        Some(x) => Some(x@),
        None => None,
    }
}

impl View for Song {
    type V = SongView;

    open spec fn view(&self) -> SongView {
        SongView {
            artist: opt_string_view(self.artist),
            album: opt_string_view(self.album),
            title: opt_string_view(self.title),
            track_number: self.track_number,
            length_micros: self.length_micros,
        }
    }
}

fn opt_string_eq(a: &Option<String>, b: &Option<String>) -> (r: bool)
    ensures
        r == (opt_string_view(*a) == opt_string_view(*b)),
{
    match (a, b) {
        (Some(x), Some(y)) => <String as PartialEq>::eq(x, y),
        (None, None) => true,
        _ => false,
    }
}

fn opt_string_clone(a: &Option<String>) -> (r: Option<String>)
    ensures
        r == *a,
{
    match a {
        Some(x) => Some(x.clone()),
        None => None,
    }
}

impl Song {
    /// Whether two songs carry the same metadata.
    pub fn same_as(&self, other: &Song) -> (r: bool)
        ensures
            r == (self@ == other@),
    {
        let a = opt_string_eq(&self.artist, &other.artist);
        let b = opt_string_eq(&self.album, &other.album);
        let t = opt_string_eq(&self.title, &other.title);
        a && b && t && self.track_number == other.track_number && self.length_micros
            == other.length_micros
    }

    /// A copy of the song.
    pub fn copy(&self) -> (r: Song)
        ensures
            r == *self,
    {
        Song {
            artist: opt_string_clone(&self.artist),
            album: opt_string_clone(&self.album),
            title: opt_string_clone(&self.title),
            track_number: self.track_number,
            length_micros: self.length_micros,
        }
    }
}

impl PartialEq for Song {
    fn eq(&self, other: &Song) -> (r: bool) {
        self.same_as(other)
    }
}

impl vstd::std_specs::cmp::PartialEqSpecImpl for Song {
    open spec fn obeys_eq_spec() -> bool {
        true
    }

    open spec fn eq_spec(&self, other: &Song) -> bool {
        self@ == other@
    }
}

/// Index of the first comma at or after `i`, or the length where there is none.
pub open spec fn first_comma_from(s: Seq<char>, i: int) -> int
    decreases s.len() - i,
{
    if i >= s.len() {
        s.len() as int
    } else if s[i] == ',' {
        i
    } else {
        first_comma_from(s, i + 1)
    }
}

/// The part of `s` before its first comma.
pub open spec fn first_field(s: Seq<char>) -> Seq<char> {
    s.subrange(0, first_comma_from(s, 0))
}

pub open spec fn is_stripped_char(c: char) -> bool {
    c == '/' || c == ' '
}

/// `s` without slashes and spaces.
pub open spec fn strip_spec(s: Seq<char>) -> Seq<char>
    decreases s.len(),
{
    if s.len() == 0 {
        s
    } else if is_stripped_char(s.last()) {
        strip_spec(s.drop_last())
    } else {
        strip_spec(s.drop_last()).push(s.last())
    }
}

/// The first comma-separated field of `s`, without slashes and spaces: a form
/// of a name that is safe as a single path component.
pub open spec fn sanitize_spec(s: Seq<char>) -> Seq<char> {
    strip_spec(first_field(s))
}

pub open spec fn sanitize_or_default_spec(s: Option<Seq<char>>, default: Seq<char>) -> Seq<char> {
    match s {
        Some(x) => if sanitize_spec(x).len() > 0 {
            sanitize_spec(x)
        } else {
            default
        },
        None => default,
    }
}

fn sanitize_string(s: &str) -> (r: String)
    ensures
        r@ == sanitize_spec(s@),
{
    let len = s.unicode_len();
    let mut end: usize = 0;
    while end < len && s.get_char(end) != ','
        invariant
            end <= len == s@.len(),
            first_comma_from(s@, 0) == first_comma_from(s@, end as int),
        decreases len - end,
    {
        end = end + 1;
    }
    let field = s.substring_char(0, end);
    let mut r = String::new();
    let mut i: usize = 0;
    while i < end
        invariant
            i <= end <= field@.len(),
            field@ == s@.subrange(0, end as int),
            end == first_comma_from(s@, 0),
            r@ == strip_spec(field@.subrange(0, i as int)),
        decreases end - i,
    {
        let c = field.get_char(i);
        assert(field@.subrange(0, i + 1).drop_last() =~= field@.subrange(0, i as int));
        if c != '/' && c != ' ' {
            let piece = field.substring_char(i, i + 1);
            assert(piece@ =~= seq![c]);
            r.append(piece);
        }
        i = i + 1;
    }
    assert(field@.subrange(0, end as int) =~= field@);
    r
}

fn sanitize_or_default(s: &Option<String>, default: &str) -> (r: String)
    ensures
        r@ == sanitize_or_default_spec(opt_string_view(*s), default@),
{
    match s {
        Some(x) => {
            let t = sanitize_string(x.as_str());
            if t.as_str().unicode_len() > 0 {
                t
            } else {
                String::from_str(default)
            }
        },
        None => String::from_str(default),
    }
}

pub open spec fn unknown_title() -> Seq<char> {
    seq!['u', 'n', 'k', 'n', 'o', 'w', 'n', '_', 't', 'i', 't', 'l', 'e']
}

pub open spec fn unknown_album() -> Seq<char> {
    seq!['u', 'n', 'k', 'n', 'o', 'w', 'n', '_', 'a', 'l', 'b', 'u', 'm']
}

pub open spec fn unknown_artist() -> Seq<char> {
    seq!['u', 'n', 'k', 'n', 'o', 'w', 'n', '_', 'a', 'r', 't', 'i', 's', 't']
}

pub fn format_title(title: &Option<String>) -> (r: String)
    ensures
        r@ == sanitize_or_default_spec(opt_string_view(*title), unknown_title()),
{
    let d = "unknown_title";
    proof {
        reveal_strlit("unknown_title");
        assert(d@ =~= unknown_title());
    }
    sanitize_or_default(title, d)
}

pub fn format_album(album: &Option<String>) -> (r: String)
    ensures
        r@ == sanitize_or_default_spec(opt_string_view(*album), unknown_album()),
{
    let d = "unknown_album";
    proof {
        reveal_strlit("unknown_album");
        assert(d@ =~= unknown_album());
    }
    sanitize_or_default(album, d)
}

pub fn format_artist(artist: &Option<String>) -> (r: String)
    ensures
        r@ == sanitize_or_default_spec(opt_string_view(*artist), unknown_artist()),
{
    let d = "unknown_artist";
    proof {
        reveal_strlit("unknown_artist");
        assert(d@ =~= unknown_artist());
    }
    sanitize_or_default(artist, d)
}

/// A track number with at least two digits, padded with a zero.
pub open spec fn track_number_spec(n: i64) -> Seq<char> {
    if 0 <= n < 10 {
        seq!['0'] + decimal_spec(n as nat)
    } else {
        signed_decimal_spec(n as int)
    }
}

/// The start of a song's file name: its track number, or else its place in the recording.
pub open spec fn file_prefix_spec(track_number: Option<i64>, num_in_recording: usize) -> Seq<
    char,
> {
    match track_number {
        Some(n) => track_number_spec(n),
        None => seq!['r', 'e', 'c', 'o', 'r', 'd', 'i', 'n', 'g', '_'] + decimal_spec(
            num_in_recording as nat,
        ),
    }
}

pub open spec fn file_name_spec(s: SongView, num_in_recording: usize) -> Seq<char> {
    file_prefix_spec(s.track_number, num_in_recording) + seq!['_'] + sanitize_or_default_spec(
        s.title,
        unknown_title(),
    ) + seq!['.', 'o', 'p', 'u', 's']
}

pub open spec fn album_folder_spec(s: SongView, music_dir: Seq<char>) -> Seq<char> {
    join_spec(
        join_spec(music_dir, sanitize_or_default_spec(s.artist, unknown_artist())),
        sanitize_or_default_spec(s.album, unknown_album()),
    )
}

fn file_prefix(track_number: Option<i64>, num_in_recording: usize) -> (r: String)
    ensures
        r@ == file_prefix_spec(track_number, num_in_recording),
{
    match track_number {
        Some(n) => {
            if 0 <= n && n < 10 {
                let zero = "0";
                proof {
                    reveal_strlit("0");
                }
                let mut r = String::from_str(zero);
                let digits = decimal_string(n as u64);
                r.append(digits.as_str());
                r
            } else {
                signed_decimal_string(n)
            }
        },
        None => {
            let word = "recording_";
            proof {
                reveal_strlit("recording_");
                assert(word@ =~= seq!['r', 'e', 'c', 'o', 'r', 'd', 'i', 'n', 'g', '_']);
            }
            let mut r = String::from_str(word);
            let digits = decimal_string(num_in_recording as u64);
            r.append(digits.as_str());
            r
        },
    }
}

impl Song {
    /// The file that the song is cut to: `<music_dir>/<artist>/<album>/<track>_<title>.opus`.
    pub fn get_target_file(&self, music_dir: &str, num_in_recording: usize) -> (r: String)
        ensures
            r@ == join_spec(
                album_folder_spec(self@, music_dir@),
                file_name_spec(self@, num_in_recording),
            ),
    {
        let mut name = file_prefix(self.track_number, num_in_recording);
        let sep = "_";
        let ext = ".opus";
        proof {
            reveal_strlit("_");
            reveal_strlit(".opus");
            assert(ext@ =~= seq!['.', 'o', 'p', 'u', 's']);
        }
        name.append(sep);
        let title = format_title(&self.title);
        name.append(title.as_str());
        name.append(ext);
        let folder = self.get_album_folder(music_dir);
        join_path(folder.as_str(), name.as_str())
    }

    /// The folder of the song's album: `<music_dir>/<artist>/<album>`.
    pub fn get_album_folder(&self, music_dir: &str) -> (r: String)
        ensures
            r@ == album_folder_spec(self@, music_dir@),
    {
        let artist = format_artist(&self.artist);
        let album = format_album(&self.album);
        let dir = join_path(music_dir, artist.as_str());
        join_path(dir.as_str(), album.as_str())
    }
}

} // verus!

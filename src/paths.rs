use vstd::prelude::*;
use vstd::string::StrSliceExecFns;
use vstd::string::StringExecFns;

verus! {

/// `dir` followed by the path component `name`: a separator goes between them
/// unless `dir` is empty or already ends in one; a `name` that starts at the
/// root replaces `dir`.
pub open spec fn join_spec(dir: Seq<char>, name: Seq<char>) -> Seq<char> {
    if name.len() > 0 && name[0] == '/' {
        name
    } else if dir.len() == 0 {
        name
    } else if dir.last() == '/' {
        dir + name
    } else {
        dir + seq!['/'] + name
    }
}

/// Appends the path component `name` to the directory `dir`.
pub fn join_path(dir: &str, name: &str) -> (r: String)
    ensures
        r@ == join_spec(dir@, name@),
{
    let n = name.unicode_len();
    if n > 0 && name.get_char(0) == '/' {
        return String::from_str(name);
    }
    let len = dir.unicode_len();
    if len == 0 {
        return String::from_str(name);
    }
    let mut r = String::from_str(dir);
    if dir.get_char(len - 1) != '/' {
        let sep = "/";
        proof {
            reveal_strlit("/");
        }
        r.append(sep);
    }
    r.append(name);
    r
}

pub open spec fn digit_char(d: int) -> char {
    if d == 0 {
        '0'
    } else if d == 1 {
        '1'
    } else if d == 2 {
        '2'
    } else if d == 3 {
        '3'
    } else if d == 4 {
        '4'
    } else if d == 5 {
        '5'
    } else if d == 6 {
        '6'
    } else if d == 7 {
        '7'
    } else if d == 8 {
        '8'
    } else {
        '9'
    }
}

/// The decimal digits of `n`, without leading zeros.
pub open spec fn decimal_spec(n: nat) -> Seq<char>
    decreases n,
{
    if n < 10 {
        seq![digit_char(n as int)]
    } else {
        decimal_spec(n / 10) + seq![digit_char((n % 10) as int)]
    }
}

/// The decimal form of an integer, with a minus sign where it is negative.
pub open spec fn signed_decimal_spec(n: int) -> Seq<char> {
    if n < 0 {
        seq!['-'] + decimal_spec((-n) as nat)
    } else {
        decimal_spec(n as nat)
    }
}

fn digit_str(d: u64) -> (r: &'static str)
    requires
        d < 10,
    ensures
        r@ == seq![digit_char(d as int)],
{
    proof {
        reveal_strlit("0");
        reveal_strlit("1");
        reveal_strlit("2");
        reveal_strlit("3");
        reveal_strlit("4");
        reveal_strlit("5");
        reveal_strlit("6");
        reveal_strlit("7");
        reveal_strlit("8");
        reveal_strlit("9");
    }
    if d == 0 {
        "0"
    } else if d == 1 {
        "1"
    } else if d == 2 {
        "2"
    } else if d == 3 {
        "3"
    } else if d == 4 {
        "4"
    } else if d == 5 {
        "5"
    } else if d == 6 {
        "6"
    } else if d == 7 {
        "7"
    } else if d == 8 {
        "8"
    } else {
        "9"
    }
}

/// The decimal digits of `n`.
pub fn decimal_string(n: u64) -> (r: String)
    ensures
        r@ == decimal_spec(n as nat),
    decreases n,
{
    if n < 10 {
        String::from_str(digit_str(n))
    } else {
        let mut r = decimal_string(n / 10);
        r.append(digit_str(n % 10));
        r
    }
}

/// The decimal form of `n`, with a minus sign where it is negative.
pub fn signed_decimal_string(n: i64) -> (r: String)
    ensures
        r@ == signed_decimal_spec(n as int),
{
    if n < 0 {
        let minus = "-";
        proof {
            reveal_strlit("-");
        }
        let mut r = String::from_str(minus);
        let digits = decimal_string((-(n as i128)) as u64);
        r.append(digits.as_str());
        r
    } else {
        decimal_string(n as u64)
    }
}

/// One past the last index before `j` that does not hold `c`, or zero.
pub open spec fn end_without(s: Seq<char>, c: char, j: int) -> int
    decreases j,
{
    if j <= 0 {
        0
    } else if s[j - 1] == c {
        end_without(s, c, j - 1)
    } else {
        j
    }
}

/// The index of the last `c` before `j`, or -1.
pub open spec fn last_index_before(s: Seq<char>, c: char, j: int) -> int
    decreases j,
{
    if j <= 0 {
        -1
    } else if s[j - 1] == c {
        j - 1
    } else {
        last_index_before(s, c, j - 1)
    }
}

/// The last component of a path, trailing separators aside.
pub open spec fn file_name_spec(path: Seq<char>) -> Seq<char> {
    let e = end_without(path, '/', path.len() as int);
    path.subrange(last_index_before(path, '/', e) + 1, e)
}

/// The last component of a path without its extension: the part before its
/// last dot, unless that dot is its first character. None for an empty last
/// component or `..`.
pub open spec fn file_stem_spec(path: Seq<char>) -> Option<Seq<char>> {
    let name = file_name_spec(path);
    if name.len() == 0 || name == seq!['.', '.'] {
        None
    } else {
        let d = last_index_before(name, '.', name.len() as int);
        if d <= 0 {
            Some(name)
        } else {
            Some(name.subrange(0, d))
        }
    }
}

proof fn lemma_end_without_bounds(s: Seq<char>, c: char, j: int)
    requires
        0 <= j <= s.len(),
    ensures
        0 <= end_without(s, c, j) <= j,
    decreases j,
{
    if j > 0 {
        lemma_end_without_bounds(s, c, j - 1);
    }
}

proof fn lemma_last_index_bounds(s: Seq<char>, c: char, j: int)
    requires
        0 <= j <= s.len(),
    ensures
        -1 <= last_index_before(s, c, j) < j,
    decreases j,
{
    if j > 0 {
        lemma_last_index_bounds(s, c, j - 1);
    }
}

fn last_index(s: &str, c: char, j: usize) -> (r: Option<usize>)
    requires
        j <= s@.len(),
    ensures
        r matches Some(k) ==> k == last_index_before(s@, c, j as int) && k < j,
        r is None ==> last_index_before(s@, c, j as int) == -1,
{
    proof {
        lemma_last_index_bounds(s@, c, j as int);
    }
    let mut k: usize = j;
    while k > 0 && s.get_char(k - 1) != c
        invariant
            k <= j <= s@.len(),
            last_index_before(s@, c, j as int) == last_index_before(s@, c, k as int),
        decreases k,
    {
        k = k - 1;
    }
    if k == 0 {
        None
    } else {
        Some(k - 1)
    }
}

/// The last component of `path` without its extension, as `Path::file_stem` gives it.
pub fn file_stem(path: &str) -> (r: Option<String>)
    ensures
        r matches Some(x) ==> file_stem_spec(path@) == Some(x@),
        r is None ==> file_stem_spec(path@) is None,
{
    let len = path.unicode_len();
    let mut e: usize = len;
    while e > 0 && path.get_char(e - 1) == '/'
        invariant
            e <= len == path@.len(),
            end_without(path@, '/', len as int) == end_without(path@, '/', e as int),
        decreases e,
    {
        e = e - 1;
    }
    proof {
        lemma_end_without_bounds(path@, '/', e as int);
    }
    let begin: usize = match last_index(path, '/', e) {
        Some(k) => k + 1,
        None => 0,
    };
    let name = path.substring_char(begin, e);
    let n = name.unicode_len();
    if n == 0 {
        return None;
    }
    if n == 2 && name.get_char(0) == '.' && name.get_char(1) == '.' {
        assert(name@ =~= seq!['.', '.']);
        return None;
    }
    assert(name@ != seq!['.', '.']) by {
        if n == 2 && name@ == seq!['.', '.'] {
            assert(name@[0] == '.' && name@[1] == '.');
        }
    }
    match last_index(name, '.', n) {
        Some(dot) if dot > 0 => Some(String::from_str(name.substring_char(0, dot))),
        _ => Some(String::from_str(name)),
    }
}

/// The last `width` decimal digits of `n`, with leading zeros.
pub open spec fn fixed_digits_spec(n: nat, width: nat) -> Seq<char>
    decreases width,
{
    if width == 0 {
        Seq::empty()
    } else {
        fixed_digits_spec(n / 10, (width - 1) as nat) + seq![digit_char((n % 10) as int)]
    }
}

fn fixed_digits(n: u64, width: u32) -> (r: String)
    ensures
        r@ == fixed_digits_spec(n as nat, width as nat),
    decreases width,
{
    if width == 0 {
        String::new()
    } else {
        let mut r = fixed_digits(n / 10, width - 1);
        r.append(digit_str(n % 10));
        r
    }
}

/// A time in microseconds written in seconds with six decimals, such as `-1.500000`.
pub open spec fn seconds_spec(micros: int) -> Seq<char> {
    let m = if micros < 0 {
        -micros
    } else {
        micros
    };
    let body = decimal_spec((m / 1_000_000) as nat) + seq!['.'] + fixed_digits_spec(
        (m % 1_000_000) as nat,
        6,
    );
    if micros < 0 {
        seq!['-'] + body
    } else {
        body
    }
}

pub fn seconds_string(micros: i64) -> (r: String)
    ensures
        r@ == seconds_spec(micros as int),
{
    let m: u64 = if micros < 0 {
        (-(micros as i128)) as u64
    } else {
        micros as u64
    };
    let mut body = decimal_string(m / 1_000_000);
    let dot = ".";
    proof {
        reveal_strlit(".");
    }
    body.append(dot);
    let fraction = fixed_digits(m % 1_000_000, 6);
    body.append(fraction.as_str());
    if micros < 0 {
        let minus = "-";
        proof {
            reveal_strlit("-");
        }
        let mut r = String::from_str(minus);
        r.append(body.as_str());
        r
    } else {
        body
    }
}

/// The name of the session file of a session directory.
pub open spec fn session_file_name() -> Seq<char> {
    seq!['s', 'e', 's', 's', 'i', 'o', 'n', '.', 'y', 'a', 'm', 'l']
}

/// The name of the recorded audio of a session directory.
pub open spec fn buffer_file_name() -> Seq<char> {
    seq!['b', 'u', 'f', 'f', 'e', 'r', '.', 'w', 'a', 'v']
}

/// The name of the directory, inside a session directory, that cut songs go to.
pub open spec fn music_dir_name() -> Seq<char> {
    seq!['c', 'u', 't']
}

pub fn default_session_file() -> (r: &'static str)
    ensures
        r@ == session_file_name(),
{
    proof {
        reveal_strlit("session.yaml");
    }
    "session.yaml"
}

pub fn default_buffer_file() -> (r: &'static str)
    ensures
        r@ == buffer_file_name(),
{
    proof {
        reveal_strlit("buffer.wav");
    }
    "buffer.wav"
}

pub fn default_music_dir() -> (r: &'static str)
    ensures
        r@ == music_dir_name(),
{
    proof {
        reveal_strlit("cut");
    }
    "cut"
}

fn numbered_file(session_dir: &str, num: i32, extension: &str) -> (r: String)
    ensures
        r@ == join_spec(session_dir@, signed_decimal_spec(num as int) + extension@),
{
    let mut name = signed_decimal_string(num as i64);
    name.append(extension);
    join_path(session_dir, name.as_str())
}

/// The session file with number `num` in a directory: `<num>.yaml`.
pub fn get_yaml_file(session_dir: &str, num: i32) -> (r: String)
    ensures
        r@ == join_spec(session_dir@, signed_decimal_spec(num as int) + seq!['.', 'y', 'a', 'm', 'l']),
{
    proof {
        reveal_strlit(".yaml");
    }
    let ext = ".yaml";
    assert(ext@ =~= seq!['.', 'y', 'a', 'm', 'l']);
    numbered_file(session_dir, num, ext)
}

/// The recording with number `num` in a directory: `<num>.wav`.
pub fn get_buffer_file(session_dir: &str, num: i32) -> (r: String)
    ensures
        r@ == join_spec(session_dir@, signed_decimal_spec(num as int) + seq!['.', 'w', 'a', 'v']),
{
    proof {
        reveal_strlit(".wav");
    }
    let ext = ".wav";
    assert(ext@ =~= seq!['.', 'w', 'a', 'v']);
    numbered_file(session_dir, num, ext)
}

} // verus!

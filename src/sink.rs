use vstd::prelude::*;
use vstd::string::StrSliceExecFns;
use vstd::string::StringExecFns;

use crate::dbus_event::{parse_u64, parse_u64_spec};
use crate::options::SoundServer;
use crate::service::{sink_name_spec, Service};
use crate::song::opt_string_view;

verus! {

/// The first and second capture group of each successive non-overlapping
/// match of the regular expression `pattern` in `haystack`, leftmost first.
pub uninterp spec fn capture_groups(pattern: Seq<char>, haystack: Seq<char>) -> Seq<
    (Option<Seq<char>>, Option<Seq<char>>),
>;

pub open spec fn groups_view(v: Seq<(Option<String>, Option<String>)>) -> Seq<
    (Option<Seq<char>>, Option<Seq<char>>),
> {
    v.map_values(|p: (Option<String>, Option<String>)| (opt_string_view(p.0), opt_string_view(p.1)))
}

/// Relies on regex's `Regex::new`, `Regex::captures_iter` and `Captures::get`:
/// compiles `pattern` (none where it is not a valid expression) and lists
/// groups 1 and 2 of every match in `haystack`.
#[verifier::external_body]
fn regex_capture_groups(pattern: &str, haystack: &str) -> (r: Option<
    Vec<(Option<String>, Option<String>)>,
>)
    ensures
        r matches Some(v) ==> groups_view(v@) == capture_groups(pattern@, haystack@),
{
    match regex::Regex::new(pattern) {
        Ok(re) => Some(
            re.captures_iter(haystack).map(
                |c| (c.get(1).map(|m| m.as_str().to_string()), c.get(2).map(|m| m.as_str().to_string())),
            ).collect(),
        ),
        Err(_) => None,
    }
}

/// Why the stream of a player could not be found among the sink inputs.
#[derive(Clone, Copy, Debug, PartialEq, Eq, Structural)]
pub enum SinkLookupError {
    NotFound,
    InvalidLine,
    NotAnInteger,
    InvalidPattern,
}

/// `s` without line breaks.
pub open spec fn remove_newlines_spec(s: Seq<char>) -> Seq<char>
    decreases s.len(),
{
    if s.len() == 0 {
        s
    } else if s.last() == '\n' {
        remove_newlines_spec(s.drop_last())
    } else {
        remove_newlines_spec(s.drop_last()).push(s.last())
    }
}

fn remove_newlines(s: &str) -> (r: String)
    ensures
        r@ == remove_newlines_spec(s@),
{
    let len = s.unicode_len();
    let mut r = String::new();
    let mut i: usize = 0;
    while i < len
        invariant
            i <= len == s@.len(),
            r@ == remove_newlines_spec(s@.subrange(0, i as int)),
        decreases len - i,
    {
        let c = s.get_char(i);
        assert(s@.subrange(0, i + 1).drop_last() =~= s@.subrange(0, i as int));
        if c != '\n' {
            let piece = s.substring_char(i, i + 1);
            assert(piece@ =~= seq![c]);
            r.append(piece);
        }
        i = i + 1;
    }
    assert(s@.subrange(0, len as int) =~= s@);
    r
}

/// The index in the first group of a match, read as a decimal number.
pub open spec fn index_of_group(g: Option<Seq<char>>) -> Result<i32, SinkLookupError> {
    match g {
        None => Err(SinkLookupError::InvalidLine),
        Some(s) => match parse_u64_spec(s) {
            Some(v) => if v <= i32::MAX {
                Ok(v as i32)
            } else {
                Err(SinkLookupError::NotAnInteger)
            },
            None => Err(SinkLookupError::NotAnInteger),
        },
    }
}

/// The index of the first match whose second group is `sink_name`.
pub open spec fn find_sink_index(
    caps: Seq<(Option<Seq<char>>, Option<Seq<char>>)>,
    sink_name: Seq<char>,
) -> Result<i32, SinkLookupError>
    decreases caps.len(),
{
    if caps.len() == 0 {
        Err(SinkLookupError::NotFound)
    } else if caps[0].1 == Some(sink_name) {
        index_of_group(caps[0].0)
    } else {
        find_sink_index(caps.drop_first(), sink_name)
    }
}

/// The pattern of one entry of the list of sink inputs that a sound server prints.
pub open spec fn sink_input_pattern(server: SoundServer) -> Seq<char> {
    match server {
        SoundServer::Pipewire => "Sink Input #([0-9]*).*?media.name = \"(.*?)\""@,
        SoundServer::Pulseaudio => "index: ([0-9]*).*?media.name = \"(.*?)\""@,
    }
}

fn get_sink_input_regex(server: SoundServer) -> (r: &'static str)
    ensures
        r@ == sink_input_pattern(server),
{
    match server {
        SoundServer::Pipewire => "Sink Input #([0-9]*).*?media.name = \"(.*?)\"",
        SoundServer::Pulseaudio => "index: ([0-9]*).*?media.name = \"(.*?)\"",
    }
}

fn get_sink_index_from_capture(g: &Option<String>) -> (r: Result<i32, SinkLookupError>)
    ensures
        r == index_of_group(opt_string_view(*g)),
{
    match g {
        None => Err(SinkLookupError::InvalidLine),
        Some(s) => match parse_u64(s.as_str()) {
            Some(v) => if v <= i32::MAX as u64 {
                Ok(v as i32)
            } else {
                Err(SinkLookupError::NotAnInteger)
            },
            None => Err(SinkLookupError::NotAnInteger),
        },
    }
}

fn opt_matches(g: &Option<String>, name: &str) -> (r: bool)
    ensures
        r == (opt_string_view(*g) == Some(name@)),
{
    match g {
        None => false,
        Some(s) => {
            let n = String::from_str(name);
            <String as PartialEq>::eq(s, &n)
        },
    }
}

/// The index in the first group of the first match whose second group is
/// `sink_name`, from groups 1 and 2 of the matches of a sink-input pattern.
pub fn find_sink_input_index(caps: &Vec<(Option<String>, Option<String>)>, sink_name: &str) -> (r:
    Result<i32, SinkLookupError>)
    ensures
        r == find_sink_index(groups_view(caps@), sink_name@),
{
    let ghost all = groups_view(caps@);
    assert(all.subrange(0, all.len() as int) =~= all);
    let mut i: usize = 0;
    while i < caps.len()
        invariant
            i <= caps@.len(),
            all == groups_view(caps@),
            find_sink_index(all, sink_name@) == find_sink_index(
                all.subrange(i as int, all.len() as int),
                sink_name@,
            ),
        decreases caps@.len() - i,
    {
        let ghost rest = all.subrange(i as int, all.len() as int);
        assert(rest.drop_first() =~= all.subrange(i + 1, all.len() as int));
        assert(rest[0] == (opt_string_view(caps@[i as int].0), opt_string_view(caps@[i as int].1)));
        if opt_matches(&caps[i].1, sink_name) {
            assert(rest[0].1 == Some(sink_name@));
            return get_sink_index_from_capture(&caps[i].0);
        }
        i = i + 1;
    }
    Err(SinkLookupError::NotFound)
}

/// Finds the stream of `service` in the list of sink inputs that the sound
/// server printed: the index of the first entry whose media name is the
/// service's sink name.
pub fn get_sink_input_index(server: SoundServer, service: Service, sink_inputs: &str) -> (r: Result<
    i32,
    SinkLookupError,
>)
    ensures
        r != Err::<i32, SinkLookupError>(SinkLookupError::InvalidPattern) ==> r == find_sink_index(
            capture_groups(sink_input_pattern(server), remove_newlines_spec(sink_inputs@)),
            sink_name_spec(service),
        ),
{
    let text = remove_newlines(sink_inputs);
    let caps = match regex_capture_groups(get_sink_input_regex(server), text.as_str()) {
        Some(c) => c,
        None => {
            return Err(SinkLookupError::InvalidPattern);
        },
    };
    find_sink_input_index(&caps, service.sink_name())
}

} // verus!

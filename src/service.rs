use vstd::prelude::*;
use vstd::string::StrSliceExecFns;
use vstd::string::StringExecFns;

verus! {

/// The player that is recorded.
#[derive(Clone, Copy, Debug, PartialEq, Eq, Structural)]
pub enum Service {
    SpotifyNative,
    SpotifyChromium,
}

impl Default for Service {
    fn default() -> (r: Service)
        ensures
            r == Service::SpotifyNative,
    {
        Service::SpotifyNative
    }
}

/// How the recorded stream is routed.
#[derive(Clone, Copy, Debug, PartialEq, Eq, Structural)]
pub enum SinkType {
    /// Audio playback will not be audible while recording.
    Normal,
    /// Audio playback will be audible while recording.
    Monitor,
}

impl Default for SinkType {
    fn default() -> (r: SinkType)
        ensures
            r == SinkType::Normal,
    {
        SinkType::Normal
    }
}

/// Why no single player instance could be picked from a listing of services.
#[derive(Clone, Copy, Debug, PartialEq, Eq, Structural)]
pub enum ServiceLookupError {
    NoMatch,
    MultipleMatches,
}

/// The names under which a player is reached.
#[derive(Clone, Debug)]
pub struct ServiceConfig {
    pub sink_name: String,
    pub dbus_bus_name: String,
}

/// Whether `c` has the Unicode property White_Space.
pub open spec fn is_whitespace_spec(c: char) -> bool {
    let u = c as u32;
    (0x9 <= u <= 0xd) || u == 0x20 || u == 0x85 || u == 0xa0 || u == 0x1680 || (0x2000 <= u
        <= 0x200a) || u == 0x2028 || u == 0x2029 || u == 0x202f || u == 0x205f || u == 0x3000
}

fn is_whitespace(c: char) -> (r: bool)
    ensures
        r == is_whitespace_spec(c),
{
    let u = c as u32;
    (0x9 <= u && u <= 0xd) || u == 0x20 || u == 0x85 || u == 0xa0 || u == 0x1680 || (0x2000 <= u
        && u <= 0x200a) || u == 0x2028 || u == 0x2029 || u == 0x202f || u == 0x205f || u == 0x3000
}

/// First index at or after `i` that holds no whitespace, or the length.
pub open spec fn trim_start_from(s: Seq<char>, i: int) -> int
    decreases s.len() - i,
{
    if i >= s.len() {
        s.len() as int
    } else if is_whitespace_spec(s[i]) {
        trim_start_from(s, i + 1)
    } else {
        i
    }
}

/// One past the last index before `j` that holds no whitespace, or zero.
pub open spec fn trim_end_from(s: Seq<char>, j: int) -> int
    decreases j,
{
    if j <= 0 {
        0
    } else if is_whitespace_spec(s[j - 1]) {
        trim_end_from(s, j - 1)
    } else {
        j
    }
}

/// `s` without leading and trailing whitespace.
pub open spec fn trim_spec(s: Seq<char>) -> Seq<char> {
    let a = trim_start_from(s, 0);
    let b = trim_end_from(s, s.len() as int);
    if b <= a {
        Seq::empty()
    } else {
        s.subrange(a, b)
    }
}

proof fn lemma_trim_end_bounds(s: Seq<char>, j: int)
    requires
        0 <= j <= s.len(),
    ensures
        0 <= trim_end_from(s, j) <= j,
        trim_end_from(s, j) > 0 ==> !is_whitespace_spec(s[trim_end_from(s, j) - 1]),
    decreases j,
{
    if j > 0 {
        lemma_trim_end_bounds(s, j - 1);
    }
}

fn trim(s: &str) -> (r: String)
    ensures
        r@ == trim_spec(s@),
{
    let len = s.unicode_len();
    let mut a: usize = 0;
    while a < len && is_whitespace(s.get_char(a))
        invariant
            a <= len == s@.len(),
            trim_start_from(s@, 0) == trim_start_from(s@, a as int),
        decreases len - a,
    {
        a = a + 1;
    }
    let mut b: usize = len;
    while b > 0 && is_whitespace(s.get_char(b - 1))
        invariant
            b <= len == s@.len(),
            trim_end_from(s@, len as int) == trim_end_from(s@, b as int),
        decreases b,
    {
        b = b - 1;
    }
    if b <= a {
        String::new()
    } else {
        String::from_str(s.substring_char(a, b))
    }
}

/// The lines of `s`: the pieces between newlines.
pub open spec fn split_lines(s: Seq<char>) -> Seq<Seq<char>>
    decreases s.len(),
{
    if s.len() == 0 {
        seq![Seq::empty()]
    } else {
        let ls = split_lines(s.drop_last());
        if s.last() == '\n' {
            ls.push(Seq::empty())
        } else {
            ls.update(ls.len() - 1, ls.last().push(s.last()))
        }
    }
}

proof fn lemma_split_lines_nonempty(s: Seq<char>)
    ensures
        split_lines(s).len() > 0,
    decreases s.len(),
{
    if s.len() > 0 {
        lemma_split_lines_nonempty(s.drop_last());
    }
}

pub open spec fn starts_with_spec(s: Seq<char>, prefix: Seq<char>) -> bool {
    prefix.len() <= s.len() && s.subrange(0, prefix.len() as int) == prefix
}

/// The trimmed lines that start with `base`, in order.
pub open spec fn matching_lines(lines: Seq<Seq<char>>, base: Seq<char>) -> Seq<Seq<char>>
    decreases lines.len(),
{
    if lines.len() == 0 {
        Seq::empty()
    } else {
        let m = matching_lines(lines.drop_last(), base);
        if starts_with_spec(trim_spec(lines.last()), base) {
            m.push(trim_spec(lines.last()))
        } else {
            m
        }
    }
}

fn starts_with(s: &str, prefix: &str) -> (r: bool)
    ensures
        r == starts_with_spec(s@, prefix@),
{
    let n = prefix.unicode_len();
    let len = s.unicode_len();
    if n > len {
        return false;
    }
    let mut i: usize = 0;
    while i < n
        invariant
            i <= n <= len,
            n == prefix@.len(),
            len == s@.len(),
            forall|k: int| 0 <= k < i ==> s@[k] == prefix@[k],
        decreases n - i,
    {
        if s.get_char(i) != prefix.get_char(i) {
            assert(s@.subrange(0, n as int)[i as int] != prefix@[i as int]);
            return false;
        }
        i = i + 1;
    }
    assert(s@.subrange(0, n as int) =~= prefix@);
    true
}

pub open spec fn strings_view(v: Seq<String>) -> Seq<Seq<char>> {
    v.map_values(|x: String| x@)
}

fn lines(s: &str) -> (r: Vec<String>)
    ensures
        strings_view(r@) == split_lines(s@),
{
    let len = s.unicode_len();
    let mut done: Vec<String> = Vec::new();
    let mut start: usize = 0;
    let mut i: usize = 0;
    assert(s@.subrange(0, 0) =~= Seq::<char>::empty());
    assert(strings_view(done@).push(s@.subrange(0, 0)) =~= seq![Seq::<char>::empty()]);
    while i < len
        invariant
            len == s@.len(),
            start <= i <= len,
            split_lines(s@.subrange(0, i as int)) == strings_view(done@).push(
                s@.subrange(start as int, i as int),
            ),
        decreases len - i,
    {
        let c = s.get_char(i);
        let ghost before = strings_view(done@);
        assert(s@.subrange(0, i + 1).drop_last() =~= s@.subrange(0, i as int));
        if c == '\n' {
            done.push(String::from_str(s.substring_char(start, i)));
            start = i + 1;
            assert(strings_view(done@) =~= split_lines(s@.subrange(0, i as int)));
            assert(s@.subrange(start as int, i + 1) =~= Seq::<char>::empty());
        } else {
            assert(s@.subrange(start as int, i + 1) =~= s@.subrange(start as int, i as int).push(c));
            assert(split_lines(s@.subrange(0, i + 1)) =~= before.push(s@.subrange(start as int, i + 1)));
        }
        i = i + 1;
    }
    done.push(String::from_str(s.substring_char(start, len)));
    assert(s@.subrange(0, len as int) =~= s@);
    assert(strings_view(done@) =~= split_lines(s@));
    done
}

/// Picks the one instance of a player from a listing of services, one name per
/// line: the trimmed line that starts with `service_base_name`. Fails where no
/// line or more than one does.
pub fn get_instance_of_service(service_list: &str, service_base_name: &str) -> (r: Result<
    String,
    ServiceLookupError,
>)
    ensures
        ({
            let m = matching_lines(split_lines(service_list@), service_base_name@);
            &&& m.len() == 0 <==> r == Err::<String, ServiceLookupError>(
                ServiceLookupError::NoMatch,
            )
            &&& m.len() > 1 <==> r == Err::<String, ServiceLookupError>(
                ServiceLookupError::MultipleMatches,
            )
            &&& m.len() == 1 <==> (r matches Ok(name) && name@ == m[0])
        }),
{
    let all = lines(service_list);
    let ghost ls = strings_view(all@);
    let mut matches: Vec<String> = Vec::new();
    let mut i: usize = 0;
    while i < all.len()
        invariant
            i <= all@.len(),
            ls == strings_view(all@),
            strings_view(matches@) == matching_lines(ls.subrange(0, i as int), service_base_name@),
        decreases all@.len() - i,
    {
        assert(ls.subrange(0, i + 1).drop_last() =~= ls.subrange(0, i as int));
        let t = trim(all[i].as_str());
        let ghost before = strings_view(matches@);
        if starts_with(t.as_str(), service_base_name) {
            matches.push(t);
            assert(strings_view(matches@) =~= before.push(t@));
        }
        i = i + 1;
    }
    assert(ls.subrange(0, all@.len() as int) =~= ls);
    let n = matches.len();
    if n == 0 {
        Err(ServiceLookupError::NoMatch)
    } else if n > 1 {
        Err(ServiceLookupError::MultipleMatches)
    } else {
        let r = matches[0].clone();
        assert(strings_view(matches@)[0] == matches@[0]@);
        Ok(r)
    }
}

pub open spec fn spotify_bus_name() -> Seq<char> {
    seq![
        'o', 'r', 'g', '.', 'm', 'p', 'r', 'i', 's', '.', 'M', 'e', 'd', 'i', 'a', 'P', 'l', 'a', 'y', 'e', 'r', '2', '.',
        's', 'p', 'o', 't', 'i', 'f', 'y',
    ]
}

pub open spec fn chromium_bus_base_name() -> Seq<char> {
    seq![
        'o', 'r', 'g', '.', 'm', 'p', 'r', 'i', 's', '.', 'M', 'e', 'd', 'i', 'a', 'P', 'l', 'a', 'y', 'e', 'r', '2', '.',
        'c', 'h', 'r', 'o', 'm', 'i', 'u', 'm',
    ]
}

pub open spec fn sink_name_spec(service: Service) -> Seq<char> {
    match service {
        Service::SpotifyNative => seq!['S', 'p', 'o', 't', 'i', 'f', 'y'],
        Service::SpotifyChromium => seq!['P', 'l', 'a', 'y', 'b', 'a', 'c', 'k'],
    }
}

/// The bus name of a service, given the listing of services on the bus: fixed
/// for the native player, looked up for a browser whose instances are numbered.
pub open spec fn bus_name_spec(service: Service, service_list: Seq<char>) -> Result<
    Seq<char>,
    ServiceLookupError,
> {
    match service {
        Service::SpotifyNative => Ok(spotify_bus_name()),
        Service::SpotifyChromium => {
            let m = matching_lines(split_lines(service_list), chromium_bus_base_name());
            if m.len() == 0 {
                Err(ServiceLookupError::NoMatch)
            } else if m.len() > 1 {
                Err(ServiceLookupError::MultipleMatches)
            } else {
                Ok(m[0])
            }
        },
    }
}

impl Service {
    /// The name of the audio stream that the player plays into.
    pub fn sink_name(&self) -> (r: &'static str)
        ensures
            r@ == sink_name_spec(*self),
    {
        proof {
            reveal_strlit("Spotify");
            reveal_strlit("Playback");
        }
        match self {
            Service::SpotifyNative => "Spotify",
            Service::SpotifyChromium => "Playback",
        }
    }

    /// The bus name of the player; `service_list` is the listing of the
    /// services on the session bus, one per line.
    pub fn dbus_bus_name(&self, service_list: &str) -> (r: Result<String, ServiceLookupError>)
        ensures
            r matches Ok(name) ==> bus_name_spec(*self, service_list@) == Ok::<
                Seq<char>,
                ServiceLookupError,
            >(name@),
            r matches Err(e) ==> bus_name_spec(*self, service_list@) == Err::<
                Seq<char>,
                ServiceLookupError,
            >(e),
    {
        match self {
            Service::SpotifyNative => {
                let name = "org.mpris.MediaPlayer2.spotify";
                proof {
                    reveal_strlit("org.mpris.MediaPlayer2.spotify");
                    assert(name@ =~= spotify_bus_name());
                }
                Ok(String::from_str(name))
            },
            Service::SpotifyChromium => {
                let base = "org.mpris.MediaPlayer2.chromium";
                proof {
                    reveal_strlit("org.mpris.MediaPlayer2.chromium");
                    assert(base@ =~= chromium_bus_base_name());
                }
                get_instance_of_service(service_list, base)
            },
        }
    }
}

/// The arguments of `dbus-send` that send the player method `command`
/// (`Play`, `Pause`, `Next`, `Previous`) to the player of `service_config`.
pub open spec fn playback_command_spec(bus_name: Seq<char>, command: Seq<char>) -> Seq<Seq<char>> {
    seq![
        "--print-reply"@,
        "--dest="@ + bus_name,
        "/org/mpris/MediaPlayer2"@,
        "org.mpris.MediaPlayer2.Player."@ + command,
    ]
}

fn concat_str(a: &str, b: &str) -> (r: String)
    ensures
        r@ == a@ + b@,
{
    let mut r = String::from_str(a);
    r.append(b);
    r
}

pub fn dbus_set_playback_status_command(service_config: &ServiceConfig, command: &str) -> (r: Vec<
    String,
>)
    ensures
        strings_view(r@) == playback_command_spec(service_config.dbus_bus_name@, command@),
{
    let mut r: Vec<String> = Vec::new();
    r.push(String::from_str("--print-reply"));
    r.push(concat_str("--dest=", service_config.dbus_bus_name.as_str()));
    r.push(String::from_str("/org/mpris/MediaPlayer2"));
    r.push(concat_str("org.mpris.MediaPlayer2.Player.", command));
    assert(strings_view(r@) =~= playback_command_spec(service_config.dbus_bus_name@, command@));
    r
}

/// The arguments of `dbus-send` that move the player to the previous song.
pub fn previous_song(service_config: &ServiceConfig) -> (r: Vec<String>)
    ensures
        strings_view(r@) == playback_command_spec(service_config.dbus_bus_name@, "Previous"@),
{
    dbus_set_playback_status_command(service_config, "Previous")
}

/// The arguments of `dbus-send` that move the player to the next song.
pub fn next_song(service_config: &ServiceConfig) -> (r: Vec<String>)
    ensures
        strings_view(r@) == playback_command_spec(service_config.dbus_bus_name@, "Next"@),
{
    dbus_set_playback_status_command(service_config, "Next")
}

/// The arguments of `dbus-send` that start playback.
pub fn start_playback(service_config: &ServiceConfig) -> (r: Vec<String>)
    ensures
        strings_view(r@) == playback_command_spec(service_config.dbus_bus_name@, "Play"@),
{
    dbus_set_playback_status_command(service_config, "Play")
}

/// The arguments of `dbus-send` that pause playback.
pub fn stop_playback(service_config: &ServiceConfig) -> (r: Vec<String>)
    ensures
        strings_view(r@) == playback_command_spec(service_config.dbus_bus_name@, "Pause"@),
{
    dbus_set_playback_status_command(service_config, "Pause")
}

impl ServiceConfig {
    /// The names of a service; `service_list` is the listing of the services on
    /// the session bus, one per line.
    pub fn from_service(service: Service, service_list: &str) -> (r: Result<
        ServiceConfig,
        ServiceLookupError,
    >)
        ensures
            r matches Ok(c) ==> c.sink_name@ == sink_name_spec(service) && bus_name_spec(
                service,
                service_list@,
            ) == Ok::<Seq<char>, ServiceLookupError>(c.dbus_bus_name@),
            r matches Err(e) ==> bus_name_spec(service, service_list@) == Err::<
                Seq<char>,
                ServiceLookupError,
            >(e),
    {
        let bus = service.dbus_bus_name(service_list);
        match bus {
            Ok(dbus_bus_name) => Ok(
                ServiceConfig { sink_name: String::from_str(service.sink_name()), dbus_bus_name },
            ),
            Err(e) => Err(e),
        }
    }
}

} // verus!

use vstd::prelude::*;

use crate::service::Service;

verus! {

/// What the program is asked to do.
#[derive(Clone, Copy, Debug, PartialEq, Eq, Structural)]
pub enum Command {
    Record,
    Cut,
    MonitorDbus,
}

/// The sound server that the recording is taken from.
#[derive(Clone, Copy, Debug, PartialEq, Eq, Structural)]
pub enum SoundServer {
    Pulseaudio,
    Pipewire,
}

impl Default for SoundServer {
    fn default() -> (r: SoundServer)
        ensures
            r == SoundServer::Pulseaudio,
    {
        SoundServer::Pulseaudio
    }
}

/// The settings that the configuration file holds.
#[derive(Clone, Debug)]
pub struct ConfigFile {
    pub output_dir: String,
    pub service: Option<Service>,
    pub sound_server: Option<SoundServer>,
}

/// The settings given on the command line; each one that is given wins over
/// the configuration file.
#[derive(Clone, Debug)]
pub struct CliOpts {
    pub output_dir: Option<String>,
    pub service: Option<Service>,
    pub sound_server: Option<SoundServer>,
    pub verbosity: usize,
    pub command: Command,
}

/// The settings that the program runs with.
#[derive(Clone, Debug)]
pub struct Opts {
    pub output_dir: String,
    pub service: Service,
    pub sound_server: SoundServer,
    pub command: Command,
}

/// The first of two optional settings that is given, or a default.
pub open spec fn first_given<T>(a: Option<T>, b: Option<T>, default: T) -> T {
    match a {
        Some(x) => x,
        None => match b {
            Some(y) => y,
            None => default,
        },
    }
}

pub open spec fn config_service(c: Option<ConfigFile>) -> Option<Service> {
    match c {
        Some(f) => f.service,
        None => None,
    }
}

pub open spec fn config_sound_server(c: Option<ConfigFile>) -> Option<SoundServer> {
    match c {
        Some(f) => f.sound_server,
        None => None,
    }
}

impl Opts {
    /// Merges the command line with the configuration file. An output
    /// directory must come from one of them.
    pub fn new(opts: CliOpts, config_file: Option<ConfigFile>) -> (r: Opts)
        requires
            opts.output_dir.is_some() || config_file.is_some(),
        ensures
            r.service == first_given(
                opts.service,
                config_service(config_file),
                Service::SpotifyNative,
            ),
            r.sound_server == first_given(
                opts.sound_server,
                config_sound_server(config_file),
                SoundServer::Pulseaudio,
            ),
            r.output_dir@ == match opts.output_dir {
                Some(d) => d@,
                None => config_file.unwrap().output_dir@,
            },
            r.command == opts.command,
    {
        let from_file_service = match &config_file {
            Some(f) => f.service,
            None => None,
        };
        let service = match opts.service {
            Some(s) => s,
            None => match from_file_service {
                Some(s) => s,
                None => Service::default(),
            },
        };
        let from_file_sound_server = match &config_file {
            Some(f) => f.sound_server,
            None => None,
        };
        let sound_server = match opts.sound_server {
            Some(s) => s,
            None => match from_file_sound_server {
                Some(s) => s,
                None => SoundServer::default(),
            },
        };
        let output_dir = match opts.output_dir {
            Some(d) => d,
            None => match config_file {
                Some(f) => f.output_dir,
                None => String::new(),
            },
        };
        Opts { output_dir, service, sound_server, command: opts.command }
    }
}

} // verus!

use striputary::options::{CliOpts, Command, ConfigFile, Opts, SoundServer};
use striputary::service::Service;

fn test_opts() -> CliOpts {
    CliOpts {
        output_dir: Some("".into()),
        service: None,
        sound_server: None,
        verbosity: 0,
        command: Command::Record,
    }
}

fn test_config_file() -> ConfigFile {
    ConfigFile {
        output_dir: "from_config_file".into(),
        service: None,
        sound_server: None,
    }
}

#[test]
fn service_set_properly() {
    let mut p_opts = CliOpts {
        service: Some(Service::SpotifyChromium),
        ..test_opts()
    };
    let config_file = ConfigFile {
        service: Some(Service::SpotifyChromium),
        ..test_config_file()
    };

    let opts = Opts::new(p_opts.clone(), None);
    assert_eq!(opts.service, Service::SpotifyChromium);

    p_opts.service = Some(Service::SpotifyNative);
    let opts = Opts::new(p_opts.clone(), None);
    assert_eq!(opts.service, Service::SpotifyNative);

    p_opts.service = None;
    let opts = Opts::new(p_opts.clone(), None);
    assert_eq!(opts.service, Service::default());

    p_opts.service = None;
    let opts = Opts::new(p_opts.clone(), Some(config_file));
    assert_eq!(opts.service, Service::SpotifyChromium);
}

#[test]
fn output_dir_set_properly() {
    let mut p_opts = CliOpts {
        output_dir: Some("from_cli".into()),
        ..test_opts()
    };
    let config_file = ConfigFile {
        output_dir: "from_config_file".into(),
        ..test_config_file()
    };
    let opts = Opts::new(p_opts.clone(), None);
    assert!(opts.output_dir == "from_cli");
    let opts = Opts::new(p_opts.clone(), Some(config_file.clone()));
    assert!(opts.output_dir == "from_cli");
    p_opts.output_dir = None;
    let opts = Opts::new(p_opts.clone(), Some(config_file));
    assert!(opts.output_dir == "from_config_file");
}

#[test]
fn sound_server_falls_back_to_config_then_default() {
    let p_opts = test_opts();
    let config_file = ConfigFile {
        sound_server: Some(SoundServer::Pipewire),
        ..test_config_file()
    };
    assert_eq!(Opts::new(p_opts.clone(), Some(config_file)).sound_server, SoundServer::Pipewire);
    assert_eq!(Opts::new(p_opts.clone(), None).sound_server, SoundServer::Pulseaudio);
    let cli = CliOpts {
        sound_server: Some(SoundServer::Pipewire),
        command: Command::Cut,
        ..test_opts()
    };
    let opts = Opts::new(cli, None);
    assert_eq!(opts.sound_server, SoundServer::Pipewire);
    assert_eq!(opts.command, Command::Cut);
}

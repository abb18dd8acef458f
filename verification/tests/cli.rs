use syncy::cli::config::{Config, Credentials};
use syncy::cli::error::Error;
use syncy::cli::{client, formatted_version, get_config, hub, network, process, storage, Cmd, Opts, RootOpts};

fn unimplemented(r: Result<(), Error>) -> bool {
    matches!(r, Err(Error::Custom(m)) if m == "Unimplemented yet")
}

fn no_root() -> RootOpts {
    RootOpts { profile: None, config: None }
}

#[test]
fn every_command_is_unimplemented() {
    let cmds = vec![
        Cmd::Client(client::Opts { command: client::Cmd::Status(client::StatusOpts {}) }),
        Cmd::Hub(hub::Opts { command: hub::Cmd::List(hub::ListOpts {}) }),
        Cmd::Network(network::Opts {
            command: network::Cmd::Lookup(network::LookupOpts {
                filter: vec!["x".to_string()],
                name: "node".to_string(),
            }),
        }),
        Cmd::Storage(storage::Opts {}),
    ];
    for command in cmds {
        assert!(unimplemented(process(Opts { root: no_root(), command })));
    }
}

#[test]
fn handlers_report_unimplemented() {
    assert!(unimplemented(client::handle(
        Config::default(),
        client::Opts { command: client::Cmd::Connect(client::ConnectOpts {}) }
    )));
    assert!(unimplemented(hub::handle(
        Config::default(),
        hub::Opts { command: hub::Cmd::Inspect(hub::InspectOpts {}) }
    )));
    assert!(unimplemented(network::handle(
        Config::default(),
        network::Opts {
            command: network::Cmd::Lookup(network::LookupOpts { filter: vec![], name: String::new() })
        }
    )));
    assert!(unimplemented(storage::handle(Config::default(), storage::Opts {})));
}

#[test]
fn default_config_has_no_hubs() {
    match get_config(no_root()) {
        Ok(c) => assert_eq!(c, Config { hubs: vec![], creds: Credentials {} }),
        Err(_) => panic!("expected a configuration"),
    }
}

#[test]
fn version_line() {
    assert_eq!(formatted_version("1.2.3", "abc123"), "v1.2.3 abc123");
    assert_eq!(formatted_version("", ""), "v ");
}

#[test]
fn error_from_string() {
    assert!(matches!(Error::from("boom".to_string()), Error::Custom(m) if m == "boom"));
}

#[test]
fn error_from_str_keeps_message() {
    assert!(matches!(Error::from("no hub"), Error::Custom(m) if m == "no hub"));
    let e: Error = "".into();
    assert!(matches!(e, Error::Custom(m) if m.is_empty()));
}

#[test]
fn result_alias_defaults_to_cli_error() {
    let r: syncy::cli::error::Result<u8> = Err("bad".into());
    assert!(matches!(r, Err(Error::Custom(m)) if m == "bad"));
    let ok: syncy::cli::error::Result<u8, ()> = Ok(3);
    assert_eq!(ok, Ok(3));
}

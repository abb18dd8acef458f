//! The `syn` command line: its options, its configuration and the dispatch of
//! its commands.
pub mod args;
pub mod client;
pub mod config;
pub mod error;
pub mod hub;
pub mod network;
pub mod storage;

use vstd::prelude::*;
use vstd::string::StringExecFns;

use crate::cli::config::Config;
use crate::cli::error::{spec_unimplemented, Error};

verus! {

/// Options common to every command, and the command.
#[derive(Debug, PartialEq, Eq)]
pub struct Opts {
    pub root: RootOpts,
    pub command: Cmd,
}

/// Where the configuration comes from: a named network profile, or a file.
#[derive(Debug, PartialEq, Eq)]
pub struct RootOpts {
    pub profile: Option<String>,
    pub config: Option<String>,
}

/// The command groups.
#[derive(Debug, PartialEq, Eq)]
pub enum Cmd {
    Client(client::Opts),
    Hub(hub::Opts),
    Network(network::Opts),
    Storage(storage::Opts),
}

/// Runs a command under the configuration that its options select.
/// Reading a profile or a configuration file is not supported, so neither
/// may be given.
pub fn process(opts: Opts) -> (r: Result<(), Error>)
    requires
        opts.root.profile is None,
        opts.root.config is None,
    ensures
        r matches Err(Error::Custom(m)) && m@ == spec_unimplemented(),
{
    let conf = get_config(opts.root)?;
    match opts.command {
        Cmd::Client(c) => client::handle(conf, c),
        Cmd::Hub(h) => hub::handle(conf, h),
        Cmd::Network(h) => network::handle(conf, h),
        Cmd::Storage(s) => storage::handle(conf, s),
    }
}

/// The configuration selected by `root`: the default one where neither a
/// profile nor a file is named.
pub fn get_config(root: RootOpts) -> (r: Result<Config, Error>)
    requires
        root.profile is None,
        root.config is None,
    ensures
        r matches Ok(c) && c.hubs@.len() == 0,
{
    Ok(Config::default())
}

/// The version line: `v`, the package version, a space and the source
/// revision.
pub fn formatted_version(version: &str, git_hash: &str) -> (r: String)
    ensures
        r@ == "v"@ + version@ + " "@ + git_hash@,
{
    let mut s = String::from_str("v");
    s.append(version);
    s.append(" ");
    s.append(git_hash);
    s
}

} // verus!

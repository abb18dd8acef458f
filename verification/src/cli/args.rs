//! The option tree of the command line, one struct per command.
use vstd::prelude::*;

verus! {

#[derive(Debug, PartialEq, Eq)]
pub struct Opts {
    pub root: RootOpts,
    pub command: Cmd,
}

/// A preconfigured network profile, or a configuration file.
#[derive(Debug, PartialEq, Eq)]
pub struct RootOpts {
    pub profile: Option<String>,
    pub config: Option<String>,
}

#[derive(Debug, PartialEq, Eq)]
pub enum Cmd {
    /// The local client daemon.
    Client(ClientOpts),
    /// The network hubs of the profile.
    Hub(HubOpts),
    /// The network cluster.
    Network(NetworkOpts),
    /// The storage nodes.
    Storage(StorageOpts),
}

#[derive(Debug, PartialEq, Eq)]
pub struct ClientOpts {
    pub command: ClientCmd,
}

#[derive(Debug, PartialEq, Eq)]
pub enum ClientCmd {
    Status(ClientStatusOpts),
    Connect(ClientConnectOpts),
    Inspect(ClientInspectOpts),
}

#[derive(Debug, PartialEq, Eq)]
pub struct ClientStatusOpts {}

#[derive(Debug, PartialEq, Eq)]
pub struct ClientConnectOpts {}

#[derive(Debug, PartialEq, Eq)]
pub struct ClientInspectOpts {}

#[derive(Debug, PartialEq, Eq)]
pub struct HubOpts {
    pub command: HubCmd,
}

#[derive(Debug, PartialEq, Eq)]
pub enum HubCmd {
    Status(HubStatusOpts),
    List(HubListOpts),
    Inspect(HubInspectOpts),
}

#[derive(Debug, PartialEq, Eq)]
pub struct HubStatusOpts {}

#[derive(Debug, PartialEq, Eq)]
pub struct HubListOpts {}

#[derive(Debug, PartialEq, Eq)]
pub struct HubInspectOpts {}

#[derive(Debug, PartialEq, Eq)]
pub struct NetworkOpts {
    pub command: NetCmd,
}

#[derive(Debug, PartialEq, Eq)]
pub enum NetCmd {
    Lookup(LookupOpts),
}

#[derive(Debug, PartialEq, Eq)]
pub struct LookupOpts {
    pub filter: Vec<String>,
    pub name: String,
}

#[derive(Debug, PartialEq, Eq)]
pub struct StorageOpts {}

} // verus!

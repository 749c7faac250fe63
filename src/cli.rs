use vstd::prelude::*;

verus! {

/// Options that both commands share.
#[derive(Clone, Debug, PartialEq, Eq)]
pub struct CommonArgs {
    /// The secret key of this node; a fresh random identity is made each run
    /// when there is none.
    pub secret: Option<String>,
    /// The local port of the peer-transport endpoint; an ephemeral port when
    /// there is none.
    pub magic_port: Option<u16>,
}

/// Arguments of `listen-tcp`.
#[derive(Clone, Debug, PartialEq, Eq)]
pub struct ListenTcpArgs {
    /// The `host:port` that every incoming stream is forwarded to.
    pub host: String,
    pub common: CommonArgs,
}

/// Arguments of `connect-tcp`.
#[derive(Clone, Debug, PartialEq, Eq)]
pub struct ConnectTcpArgs {
    /// The ticket of the listener to connect to.
    pub ticket: String,
    pub common: CommonArgs,
}

/// The two commands of the tunnel.
#[derive(Clone, Debug, PartialEq, Eq)]
pub enum Commands {
    /// Accept peer connections and forward every incoming stream to a new TCP
    /// connection to the given host and port, printing a ticket to connect with.
    ListenTcp(ListenTcpArgs),
    /// Connect to a listener by its ticket, open one stream, and forward
    /// standard input and output over it.
    ConnectTcp(ConnectTcpArgs),
}

/// The command line.
#[derive(Clone, Debug, PartialEq, Eq)]
pub struct Args {
    pub command: Commands,
}

} // verus!

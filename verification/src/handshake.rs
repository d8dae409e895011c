use vstd::prelude::*;
use vstd::string::StringExecFns;
use crate::decimal::{spec_decimal, u64_to_decimal};

verus! {

/// The version of the handshake protocol itself, the first field of the
/// handshake line. The host refuses to talk to a plugin whose core
/// version differs from its own.
pub const CORE_PROTOCOL_VERSION: u64 = 1;

/// The transport the plugin's server listens on.
#[derive(Debug, Clone, Copy, PartialEq, Eq, Structural)]
pub enum Network {
    Tcp,
    Unix,
}

/// The kind of server the plugin runs behind the reported address.
#[derive(Debug, Clone, Copy, PartialEq, Eq, Structural)]
pub enum ServerType {
    Grpc,
}

/// How to reach the plugin's server: the single successful outcome of
/// server bootstrap. Created exactly once per process, right after the
/// server begins listening, and never mutated afterwards; every
/// subscriber of the connection-info channel receives this same record.
#[derive(Debug)]
pub struct ConnInfo {
    /// The transport the server listens on.
    pub network: Network,
    /// The bound address, as the host must dial it.
    pub address: String,
    /// The application-level protocol version the plugin serves.
    pub protocol_version: u64,
    /// The kind of server behind the address.
    pub server_type: ServerType,
}

/// The word that names a transport on the handshake line.
pub open spec fn network_label(n: Network) -> Seq<char> {
    match n {
        Network::Tcp => "tcp"@,
        Network::Unix => "unix"@,
    }
}

/// The word that names a server type on the handshake line.
pub open spec fn server_type_label(s: ServerType) -> Seq<char> {
    match s {
        ServerType::Grpc => "grpc"@,
    }
}

/// The one line of output through which the plugin tells its host where
/// to connect: core protocol version, application protocol version,
/// network, address and server type, separated by pipes and terminated
/// by a newline.
pub open spec fn spec_handshake_line(
    core_version: nat,
    app_version: nat,
    network: Network,
    address: Seq<char>,
    server_type: ServerType,
) -> Seq<char> {
    spec_decimal(core_version) + "|"@ + spec_decimal(app_version) + "|"@ + network_label(network)
        + "|"@ + address + "|"@ + server_type_label(server_type) + "\n"@
}

fn network_str(n: Network) -> (s: &'static str)
    ensures
        s@ == network_label(n),
{
    match n {
        Network::Tcp => "tcp",
        Network::Unix => "unix",
    }
}

fn server_type_str(s: ServerType) -> (r: &'static str)
    ensures
        r@ == server_type_label(s),
{
    match s {
        ServerType::Grpc => "grpc",
    }
}

/// Formats the handshake line for a connection record, exactly as
/// `spec_handshake_line` states it. The embedding process writes this
/// line, alone and flushed, to the host-facing output stream, exactly
/// once, only after the server is confirmed listening.
pub fn handshake_line(info: &ConnInfo) -> (r: String)
    ensures
        r@ =~= spec_handshake_line(
            CORE_PROTOCOL_VERSION as nat,
            info.protocol_version as nat,
            info.network,
            info.address@,
            info.server_type,
        ),
{
    let mut r = u64_to_decimal(CORE_PROTOCOL_VERSION);
    r.append("|");
    let app = u64_to_decimal(info.protocol_version);
    r.append(app.as_str());
    r.append("|");
    r.append(network_str(info.network));
    r.append("|");
    r.append(info.address.as_str());
    r.append("|");
    r.append(server_type_str(info.server_type));
    r.append("\n");
    r
}

} // verus!

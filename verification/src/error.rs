use vstd::prelude::*;
use vstd::string::StringExecFns;

verus! {

/// Closed set of failure kinds produced by the bootstrap core.
///
/// Each variant is one distinguishable failure class. A variant never
/// carries a stack trace: it carries either nothing (a static reason) or
/// the rendered detail of the lower-level failure that crossed into this
/// domain, so that callers can match exhaustively and still format a
/// human-readable diagnostic.
#[derive(Debug)]
pub enum Error {
    /// Port allocation exhausted the configured range; fatal, no retry.
    NoTCPPortAvailable,
    /// The magic-cookie identity check failed; fatal, no retry.
    GRPCHandshakeMagicCookieValueMismatch,
    /// A receiving handle that construction guarantees was absent;
    /// a defensive, programmer-invariant fault.
    ConnInfoReceiverMissing,
    /// A low-level I/O failure, with its rendered detail.
    Io(String),
    /// Free-text fallback for conditions not otherwise classified.
    Generic(String),
    /// A server or transport failure, with its rendered detail;
    /// fatal to the serving phase.
    TonicTransport(String),
    /// A malformed configured address or port, with its rendered detail.
    AddrParser(String),
    /// A subscriber went away before receiving the published result;
    /// logged, non-fatal.
    ConnInfoSend(String),
}

/// The diagnostic text that `Error::message` returns for each variant.
pub open spec fn spec_message(e: Error) -> Seq<char> {
    match e {
        Error::NoTCPPortAvailable => "No ports were available to bind the plugin's gRPC server to."@,
        Error::GRPCHandshakeMagicCookieValueMismatch => "This executable is meant to be a go-plugin to other processes. Do not run this directly. The Magic Handshake failed."@,
        Error::ConnInfoReceiverMissing => "In GRPC Plugin Server conn_info_receiver was None, when it shouldn't be, as it is set to Some in the constructor and used in the blocking serve method. Something really weird has happened here."@,
        Error::Io(d) => "Error with IO: "@ + d@,
        Error::Generic(d) => d@,
        Error::TonicTransport(d) => "Error with tonic (gRPC) transport: "@ + d@,
        Error::AddrParser(d) => "Error parsing string into a network address: "@ + d@,
        Error::ConnInfoSend(d) => "Error sending ConnInfo to the other side: "@ + d@,
    }
}

impl Error {
    /// The human-readable diagnostic for this failure, exactly as
    /// `spec_message` states it.
    pub fn message(&self) -> (m: String)
        ensures
            m@ == spec_message(*self),
    {
        match self {
            Error::NoTCPPortAvailable => "No ports were available to bind the plugin's gRPC server to.".to_owned(),
            Error::GRPCHandshakeMagicCookieValueMismatch => "This executable is meant to be a go-plugin to other processes. Do not run this directly. The Magic Handshake failed.".to_owned(),
            Error::ConnInfoReceiverMissing => "In GRPC Plugin Server conn_info_receiver was None, when it shouldn't be, as it is set to Some in the constructor and used in the blocking serve method. Something really weird has happened here.".to_owned(),
            Error::Io(d) => {
                let mut m = "Error with IO: ".to_owned();
                m.append(d.as_str());
                m
            },
            Error::Generic(d) => d.clone(),
            Error::TonicTransport(d) => {
                let mut m = "Error with tonic (gRPC) transport: ".to_owned();
                m.append(d.as_str());
                m
            },
            Error::AddrParser(d) => {
                let mut m = "Error parsing string into a network address: ".to_owned();
                m.append(d.as_str());
                m
            },
            Error::ConnInfoSend(d) => {
                let mut m = "Error sending ConnInfo to the other side: ".to_owned();
                m.append(d.as_str());
                m
            },
        }
    }
}

/// The diagnostic line that is logged when a propagated error is first
/// observed: the origin function, its source position, then the detail.
pub open spec fn spec_log_line(
    origin: Seq<char>,
    file: Seq<char>,
    line: nat,
    detail: Seq<char>,
) -> Seq<char> {
    origin + ",("@ + file + ":"@ + crate::decimal::spec_decimal(line) + "), "@ + detail
}

/// Formats the log line for a propagated error, exactly as
/// `spec_log_line` states it. Every propagated error is logged exactly
/// once, with its origin, at the point it is first observed; the caller
/// hands this line to whatever logging sink the process uses.
pub fn log_line(origin: &str, file: &str, line: u64, detail: &str) -> (r: String)
    ensures
        r@ =~= spec_log_line(origin@, file@, line as nat, detail@),
{
    let mut r = origin.to_owned();
    r.append(",(");
    r.append(file);
    r.append(":");
    let num = crate::decimal::u64_to_decimal(line);
    r.append(num.as_str());
    r.append("), ");
    r.append(detail);
    r
}

} // verus!

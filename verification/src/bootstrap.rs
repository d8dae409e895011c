use vstd::prelude::*;
use vstd::pervasive::unreached;
use crate::channel::{ConnInfoChannel, HandshakeResult, spec_publish};
use crate::cookie::{MagicCookie, cookie_matches, validate};
use crate::error::Error;
use crate::handshake::{
    CORE_PROTOCOL_VERSION, ConnInfo, Network, ServerType, handshake_line, spec_handshake_line,
};
use crate::port::{PortAllocator, PortRange, spec_candidates};

verus! {

/// Where the bootstrap stands. Each run of the machine walks these
/// phases forward once; no phase retries, and every failure is terminal
/// for the attempt.
#[derive(Debug, Clone, Copy, PartialEq, Eq, Structural)]
pub enum Phase {
    /// The process has not started bootstrapping yet.
    Idle,
    /// Waiting for the host-supplied cookie value.
    Validating,
    /// Trying candidate ports until one binds.
    Allocating,
    /// A listener is bound; the server is being scheduled on it.
    Starting,
    /// The outcome is published; the handshake line is being written.
    Publishing,
    /// The server runs until shutdown or a fatal transport error.
    Serving,
    /// The run is over, well or badly.
    Terminated,
}

/// What the embedding process reports back to the machine: the outcome
/// of the one piece of outside work the previous action asked for.
#[derive(Debug)]
pub enum Event {
    /// The process has started.
    Started,
    /// The environment variable named by the configured cookie held
    /// this value (`None` when it was absent).
    EnvCookie(Option<String>),
    /// The candidate port could not be bound.
    BindFailed,
    /// A listener is bound; this is its local address.
    BindSucceeded(String),
    /// The gRPC server task has been scheduled on the bound listener.
    ServerScheduled,
    /// The gRPC server could not be scheduled; the rendered cause.
    ServerStartFailed(String),
    /// The handshake line has been written and flushed.
    Emitted,
    /// The server was shut down gracefully.
    ShutdownOk,
    /// The server died of a transport failure; the rendered cause.
    TransportError(String),
}

/// What the machine asks the embedding process to do next.
#[derive(Debug)]
pub enum Action {
    /// Read the environment variable named by the configured cookie.
    ReadCookieEnv,
    /// Try to bind a listener to this port.
    TryBind(u16),
    /// Schedule the gRPC server on the bound listener.
    StartServer,
    /// Write this line, alone and flushed, to the host-facing stream.
    EmitHandshake(String),
    /// Run the server's accept loop until shutdown.
    Serve,
    /// The run is over; exit with this failure, or cleanly on `None`.
    Stop(Option<Error>),
    /// The event does not fit the phase: a programmer error in the
    /// embedding process, answered defensively without a transition.
    Fault,
}

/// The handshake-and-broker machine. It owns the only sending half of
/// the connection-info channel and is the only component that ever
/// constructs a `ConnInfo`. The embedding process performs each returned
/// action and reports its outcome as the next event; the machine itself
/// touches neither the environment nor the network.
#[derive(Debug)]
pub struct Bootstrap {
    /// The configured identity check.
    pub cookie: MagicCookie,
    /// Hands out candidate ports, lowest first.
    pub allocator: PortAllocator,
    /// The broadcast-of-one channel for the handshake outcome.
    pub channel: ConnInfoChannel,
    /// The application-level protocol version this plugin serves.
    pub protocol_version: u64,
    /// Where the run stands.
    pub phase: Phase,
    /// The bound local address, once a bind succeeded.
    pub bound_address: Option<String>,
}

/// The view of the event's environment payload.
pub open spec fn env_view(v: Option<String>) -> Option<Seq<char>> {
    match v {
        Some(s) => Some(s@),
        None => None,
    }
}

/// The control part of the machine: the phase together with how far the
/// port allocation has come. Everything the order of the run depends on
/// lives here.
pub struct ControlState {
    pub phase: Phase,
    pub tried: nat,
}

/// One transition of the control machine: given the configured cookie
/// value and the number of candidate ports, the state after an event,
/// and whether the transition asks for a bind. This is the state machine
/// the executable `Bootstrap::step` is proved to follow.
pub open spec fn spec_control_step(
    s: ControlState,
    cookie_value: Seq<char>,
    cands_len: nat,
    ev: Event,
) -> (ControlState, bool) {
    match (s.phase, ev) {
        (Phase::Idle, Event::Started) => (ControlState { phase: Phase::Validating, ..s }, false),
        (Phase::Validating, Event::EnvCookie(v)) => {
            if env_view(v) == Some(cookie_value) {
                (ControlState { phase: Phase::Allocating, tried: 1 }, true)
            } else {
                (ControlState { phase: Phase::Terminated, ..s }, false)
            }
        },
        (Phase::Allocating, Event::BindFailed) => {
            if s.tried < cands_len {
                (ControlState { phase: Phase::Allocating, tried: s.tried + 1 }, true)
            } else {
                (ControlState { phase: Phase::Terminated, ..s }, false)
            }
        },
        (Phase::Allocating, Event::BindSucceeded(_)) => (
            ControlState { phase: Phase::Starting, ..s },
            false,
        ),
        (Phase::Starting, Event::ServerScheduled) => (
            ControlState { phase: Phase::Publishing, ..s },
            false,
        ),
        (Phase::Starting, Event::ServerStartFailed(_)) => (
            ControlState { phase: Phase::Terminated, ..s },
            false,
        ),
        (Phase::Publishing, Event::Emitted) => (ControlState { phase: Phase::Serving, ..s }, false),
        (Phase::Serving, Event::ShutdownOk) => (ControlState { phase: Phase::Terminated, ..s }, false),
        (Phase::Serving, Event::TransportError(_)) => (
            ControlState { phase: Phase::Terminated, ..s },
            false,
        ),
        _ => (s, false),
    }
}

/// The control part of a machine state.
pub open spec fn control(b: Bootstrap) -> ControlState {
    ControlState { phase: b.phase, tried: b.allocator.tried as nat }
}

/// The control machine after a whole sequence of events.
pub open spec fn run_control(
    s: ControlState,
    cookie_value: Seq<char>,
    cands_len: nat,
    evs: Seq<Event>,
) -> ControlState
    decreases evs.len(),
{
    if evs.len() == 0 {
        s
    } else {
        run_control(
            spec_control_step(s, cookie_value, cands_len, evs[0]).0,
            cookie_value,
            cands_len,
            evs.skip(1),
        )
    }
}

/// Whether any step of a run asks for a bind.
pub open spec fn run_tries_bind(
    s: ControlState,
    cookie_value: Seq<char>,
    cands_len: nat,
    evs: Seq<Event>,
) -> bool
    decreases evs.len(),
{
    evs.len() > 0 && (spec_control_step(s, cookie_value, cands_len, evs[0]).1 || run_tries_bind(
        spec_control_step(s, cookie_value, cands_len, evs[0]).0,
        cookie_value,
        cands_len,
        evs.skip(1),
    ))
}

/// Whether an event supplies exactly the configured cookie value.
pub open spec fn event_matches_cookie(ev: Event, cookie_value: Seq<char>) -> bool {
    ev matches Event::EnvCookie(v) && env_view(v) == Some(cookie_value)
}

proof fn lemma_validation_gates_binding(
    s: ControlState,
    cookie_value: Seq<char>,
    cands_len: nat,
    evs: Seq<Event>,
)
    requires
        s.phase is Idle || s.phase is Validating || s.phase is Terminated,
        forall|i: int| 0 <= i < evs.len() ==> !event_matches_cookie(evs[i], cookie_value),
    ensures
        !run_tries_bind(s, cookie_value, cands_len, evs),
        ({
            let end = run_control(s, cookie_value, cands_len, evs);
            end.phase is Idle || end.phase is Validating || end.phase is Terminated
        }),
    decreases evs.len(),
{
    if evs.len() > 0 {
        assert(!event_matches_cookie(evs[0], cookie_value));
        let s1 = spec_control_step(s, cookie_value, cands_len, evs[0]).0;
        assert(s1.phase is Idle || s1.phase is Validating || s1.phase is Terminated);
        assert(!spec_control_step(s, cookie_value, cands_len, evs[0]).1);
        assert(forall|i: int|
            0 <= i < evs.skip(1).len() ==> evs.skip(1)[i] == evs[i + 1]);
        lemma_validation_gates_binding(s1, cookie_value, cands_len, evs.skip(1));
    }
}

/// A bootstrap run whose environment never supplies the configured
/// cookie value never asks for a bind: validation gates allocation, so
/// after a failed cookie check no socket is ever bound, whatever events
/// the embedding process goes on to report. Such a run never leaves the
/// validation gate: it ends idle, validating or terminated.
pub proof fn lemma_mismatched_cookie_never_binds(
    cookie_value: Seq<char>,
    cands_len: nat,
    evs: Seq<Event>,
)
    requires
        forall|i: int| 0 <= i < evs.len() ==> !event_matches_cookie(evs[i], cookie_value),
    ensures
        !run_tries_bind(
            ControlState { phase: Phase::Idle, tried: 0 },
            cookie_value,
            cands_len,
            evs,
        ),
        ({
            let end = run_control(
                ControlState { phase: Phase::Idle, tried: 0 },
                cookie_value,
                cands_len,
                evs,
            );
            end.phase is Idle || end.phase is Validating || end.phase is Terminated
        }),
{
    lemma_validation_gates_binding(
        ControlState { phase: Phase::Idle, tried: 0 },
        cookie_value,
        cands_len,
        evs,
    );
}

impl Bootstrap {
    /// The machine's invariant: the allocator hands out a prefix of the
    /// candidates, none of them before validation has passed, and a
    /// bound address is on record whenever the server is being started.
    pub open spec fn wf(self) -> bool {
        &&& self.allocator.wf()
        &&& (self.phase is Idle || self.phase is Validating) ==> self.allocator.tried == 0
        &&& (self.phase is Starting ==> self.bound_address is Some)
    }

    /// A machine at rest, before the process starts bootstrapping.
    pub fn new(cookie: MagicCookie, range: Option<PortRange>, protocol_version: u64) -> (b:
        Bootstrap)
        requires
            range matches Some(r) ==> r.wf(),
        ensures
            b.wf(),
            b.phase is Idle,
            b.cookie == cookie,
            b.protocol_version == protocol_version,
            b.allocator.range == range,
            b.allocator.tried == 0,
            b.channel.published is None,
            b.bound_address is None,
    {
        Bootstrap {
            cookie,
            allocator: PortAllocator::new(range),
            channel: ConnInfoChannel::new(),
            protocol_version,
            phase: Phase::Idle,
            bound_address: None,
        }
    }

    /// Whether an event is the answer the phase is waiting for.
    pub open spec fn event_fits(phase: Phase, ev: Event) -> bool {
        match (phase, ev) {
            (Phase::Idle, Event::Started) => true,
            (Phase::Validating, Event::EnvCookie(_)) => true,
            (Phase::Allocating, Event::BindFailed) => true,
            (Phase::Allocating, Event::BindSucceeded(_)) => true,
            (Phase::Starting, Event::ServerScheduled) => true,
            (Phase::Starting, Event::ServerStartFailed(_)) => true,
            (Phase::Publishing, Event::Emitted) => true,
            (Phase::Serving, Event::ShutdownOk) => true,
            (Phase::Serving, Event::TransportError(_)) => true,
            _ => false,
        }
    }

    /// One step of the bootstrap: takes the outcome of the previous
    /// action and answers with the next one.
    ///
    /// The run follows `spec_control_step`; on top of that order, each
    /// fitting event is answered as the phase demands: a matching cookie
    /// opens the allocation and a mismatch terminates the run with the
    /// allocator and the channel untouched; an exhausted allocation
    /// publishes the failure before terminating, so a subscriber still
    /// learns the outcome; a scheduled server publishes the connection
    /// record first and only then asks for the handshake line to be
    /// emitted; and a failure while starting or serving terminates the
    /// run with the rendered cause.
    pub fn step(&mut self, ev: Event) -> (r: Action)
        requires
            old(self).wf(),
        ensures
            final(self).wf(),
            final(self).cookie == old(self).cookie,
            final(self).protocol_version == old(self).protocol_version,
            final(self).allocator.range == old(self).allocator.range,
            control(*final(self)) == spec_control_step(
                control(*old(self)),
                old(self).cookie.value@,
                spec_candidates(old(self).allocator.range).len(),
                ev,
            ).0,
            (r is TryBind) == spec_control_step(
                control(*old(self)),
                old(self).cookie.value@,
                spec_candidates(old(self).allocator.range).len(),
                ev,
            ).1,
            !Self::event_fits(old(self).phase, ev) ==> *final(self) == *old(self) && r is Fault,
            old(self).phase is Idle && ev is Started ==> r is ReadCookieEnv
                && final(self).channel == old(self).channel,
            old(self).phase is Validating ==> (ev matches Event::EnvCookie(v) ==> {
                &&& cookie_matches(old(self).cookie, env_view(v)) ==> final(self).phase is Allocating
                    && r == Action::TryBind(spec_candidates(old(self).allocator.range)[0])
                    && final(self).channel == old(self).channel
                &&& !cookie_matches(old(self).cookie, env_view(v)) ==> final(self).phase
                    is Terminated && (r matches Action::Stop(e) && e matches Some(e0)
                    && e0 is GRPCHandshakeMagicCookieValueMismatch) && final(self).channel == old(self).channel && final(self).allocator == old(self).allocator
            }),
            old(self).phase is Allocating && ev is BindFailed ==> {
                &&& old(self).allocator.tried < spec_candidates(old(self).allocator.range).len()
                    ==> r == Action::TryBind(
                    spec_candidates(old(self).allocator.range)[old(self).allocator.tried as int],
                ) && final(self).channel == old(self).channel
                &&& old(self).allocator.tried == spec_candidates(old(self).allocator.range).len()
                    ==> final(self).phase is Terminated && final(self).channel == spec_publish(
                    old(self).channel,
                    HandshakeResult::Failed(Error::NoTCPPortAvailable),
                ) && (r matches Action::Stop(e) && e matches Some(e0)
                    && e0 is NoTCPPortAvailable)
            },
            old(self).phase is Allocating ==> (ev matches Event::BindSucceeded(addr)
                ==> final(self).phase is Starting && r is StartServer && final(self).bound_address
                == Some(addr) && final(self).channel == old(self).channel),
            old(self).phase is Starting && ev is ServerScheduled ==> (old(self).bound_address
                matches Some(a) ==> {
                &&& final(self).phase is Publishing
                &&& old(self).channel.published is None ==> (final(self).channel.published
                    matches Some(HandshakeResult::Ready(ci)) && ci.network is Tcp
                    && ci.server_type is Grpc && ci.protocol_version == old(self).protocol_version
                    && ci.address@ == a@)
                &&& old(self).channel.published is Some ==> final(self).channel == old(self).channel
                &&& (r matches Action::EmitHandshake(line) && line@ =~= spec_handshake_line(
                    CORE_PROTOCOL_VERSION as nat,
                    old(self).protocol_version as nat,
                    Network::Tcp,
                    a@,
                    ServerType::Grpc,
                ))
            }),
            old(self).phase is Starting ==> (ev matches Event::ServerStartFailed(d) ==> {
                &&& final(self).phase is Terminated
                &&& old(self).channel.published is None ==> (final(self).channel.published
                    matches Some(HandshakeResult::Failed(e)) && e matches Error::TonicTransport(s)
                    && s@ == d@)
                &&& old(self).channel.published is Some ==> final(self).channel == old(self).channel
                &&& (r matches Action::Stop(e) && e matches Some(Error::TonicTransport(s))
                    && s@ == d@)
            }),
            old(self).phase is Publishing && ev is Emitted ==> r is Serve && final(self).channel
                == old(self).channel,
            old(self).phase is Serving && ev is ShutdownOk ==> (r matches Action::Stop(e)
                && e is None) && final(self).channel == old(self).channel,
            old(self).phase is Serving ==> (ev matches Event::TransportError(d) ==> (r
                matches Action::Stop(e) && e matches Some(Error::TonicTransport(s)) && s@ == d@)
                && final(self).channel == old(self).channel),
    {
        let phase = self.phase;
        match (phase, ev) {
            (Phase::Idle, Event::Started) => {
                self.phase = Phase::Validating;
                Action::ReadCookieEnv
            },
            (Phase::Validating, Event::EnvCookie(v)) => {
                match validate(&self.cookie, v.as_ref()) {
                    Ok(_) => {
                        self.phase = Phase::Allocating;
                        assert(spec_candidates(self.allocator.range).len() >= 1);
                        match self.allocator.next_candidate() {
                            Some(p) => Action::TryBind(p),
                            None => unreached(),
                        }
                    },
                    Err(e) => {
                        self.phase = Phase::Terminated;
                        Action::Stop(Some(e))
                    },
                }
            },
            (Phase::Allocating, Event::BindFailed) => {
                match self.allocator.next_candidate() {
                    Some(p) => Action::TryBind(p),
                    None => {
                        let _ = self.channel.publish(
                            HandshakeResult::Failed(Error::NoTCPPortAvailable),
                        );
                        self.phase = Phase::Terminated;
                        Action::Stop(Some(Error::NoTCPPortAvailable))
                    },
                }
            },
            (Phase::Allocating, Event::BindSucceeded(addr)) => {
                self.bound_address = Some(addr);
                self.phase = Phase::Starting;
                Action::StartServer
            },
            (Phase::Starting, Event::ServerScheduled) => {
                let address = match &self.bound_address {
                    Some(a) => a.clone(),
                    None => unreached(),
                };
                let info = ConnInfo {
                    network: Network::Tcp,
                    address,
                    protocol_version: self.protocol_version,
                    server_type: ServerType::Grpc,
                };
                let line = handshake_line(&info);
                let _ = self.channel.publish(HandshakeResult::Ready(info));
                self.phase = Phase::Publishing;
                Action::EmitHandshake(line)
            },
            (Phase::Starting, Event::ServerStartFailed(d)) => {
                let detail = d.clone();
                let _ = self.channel.publish(
                    HandshakeResult::Failed(Error::TonicTransport(d)),
                );
                self.phase = Phase::Terminated;
                Action::Stop(Some(Error::TonicTransport(detail)))
            },
            (Phase::Publishing, Event::Emitted) => {
                self.phase = Phase::Serving;
                Action::Serve
            },
            (Phase::Serving, Event::ShutdownOk) => {
                self.phase = Phase::Terminated;
                Action::Stop(None)
            },
            (Phase::Serving, Event::TransportError(d)) => {
                self.phase = Phase::Terminated;
                Action::Stop(Some(Error::TonicTransport(d)))
            },
            (_, _) => Action::Fault,
        }
    }
}

} // verus!

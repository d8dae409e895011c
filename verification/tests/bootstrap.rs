use plugin_bootstrap::bootstrap::{Action, Bootstrap, Event, Phase};
use plugin_bootstrap::channel::HandshakeResult;
use plugin_bootstrap::cookie::MagicCookie;
use plugin_bootstrap::error::Error;
use plugin_bootstrap::port::PortRange;

fn cookie() -> MagicCookie {
    MagicCookie { name: "PLUGIN_MAGIC_COOKIE".to_string(), value: "hello-plugin".to_string() }
}

fn machine() -> Bootstrap {
    Bootstrap::new(cookie(), Some(PortRange { min: 40000, max: 40001 }), 7)
}

#[test]
fn happy_path_runs_in_order() {
    let mut b = machine();
    assert_eq!(b.phase, Phase::Idle);

    assert!(matches!(b.step(Event::Started), Action::ReadCookieEnv));
    assert_eq!(b.phase, Phase::Validating);

    let a = b.step(Event::EnvCookie(Some("hello-plugin".to_string())));
    assert!(matches!(a, Action::TryBind(40000)));
    assert_eq!(b.phase, Phase::Allocating);

    // the first candidate is taken; the machine asks for the next one
    let a = b.step(Event::BindFailed);
    assert!(matches!(a, Action::TryBind(40001)));

    let a = b.step(Event::BindSucceeded("127.0.0.1:40001".to_string()));
    assert!(matches!(a, Action::StartServer));
    assert_eq!(b.phase, Phase::Starting);
    // nothing is published before the server is scheduled
    assert!(b.channel.subscribe().is_none());

    let a = b.step(Event::ServerScheduled);
    match a {
        Action::EmitHandshake(line) => assert_eq!(line, "1|7|tcp|127.0.0.1:40001|grpc\n"),
        _ => panic!("the scheduled server must be announced to the host"),
    }
    assert_eq!(b.phase, Phase::Publishing);
    // the outcome is published before the handshake line is emitted
    match b.channel.subscribe() {
        Some(HandshakeResult::Ready(ci)) => {
            assert_eq!(ci.address, "127.0.0.1:40001");
            assert_eq!(ci.protocol_version, 7);
        },
        _ => panic!("publication must precede emission"),
    }

    assert!(matches!(b.step(Event::Emitted), Action::Serve));
    assert_eq!(b.phase, Phase::Serving);

    assert!(matches!(b.step(Event::ShutdownOk), Action::Stop(None)));
    assert_eq!(b.phase, Phase::Terminated);
}

#[test]
fn mismatched_cookie_terminates_without_binding() {
    let mut b = machine();
    b.step(Event::Started);
    let a = b.step(Event::EnvCookie(Some("wrong".to_string())));
    assert!(matches!(
        a,
        Action::Stop(Some(Error::GRPCHandshakeMagicCookieValueMismatch))
    ));
    assert_eq!(b.phase, Phase::Terminated);
    // no candidate port was ever handed out
    assert_eq!(b.allocator.tried, 0);
    // and the terminated machine never asks for a bind afterwards
    assert!(matches!(b.step(Event::BindFailed), Action::Fault));
    assert_eq!(b.allocator.tried, 0);
}

#[test]
fn absent_cookie_terminates_without_binding() {
    let mut b = machine();
    b.step(Event::Started);
    let a = b.step(Event::EnvCookie(None));
    assert!(matches!(
        a,
        Action::Stop(Some(Error::GRPCHandshakeMagicCookieValueMismatch))
    ));
    assert_eq!(b.allocator.tried, 0);
}

#[test]
fn exhausted_range_publishes_the_failure() {
    let mut b = machine();
    b.step(Event::Started);
    assert!(matches!(
        b.step(Event::EnvCookie(Some("hello-plugin".to_string()))),
        Action::TryBind(40000)
    ));
    assert!(matches!(b.step(Event::BindFailed), Action::TryBind(40001)));
    // both candidates of the width-2 range failed: terminal, no retry
    let a = b.step(Event::BindFailed);
    assert!(matches!(a, Action::Stop(Some(Error::NoTCPPortAvailable))));
    assert_eq!(b.phase, Phase::Terminated);
    // a subscriber still learns the outcome
    assert!(matches!(
        b.channel.subscribe(),
        Some(HandshakeResult::Failed(Error::NoTCPPortAvailable))
    ));
}

#[test]
fn server_start_failure_publishes_the_failure() {
    let mut b = machine();
    b.step(Event::Started);
    b.step(Event::EnvCookie(Some("hello-plugin".to_string())));
    b.step(Event::BindSucceeded("127.0.0.1:40000".to_string()));
    let a = b.step(Event::ServerStartFailed("transport error".to_string()));
    match a {
        Action::Stop(Some(Error::TonicTransport(d))) => assert_eq!(d, "transport error"),
        _ => panic!("a failed server start is terminal"),
    }
    match b.channel.subscribe() {
        Some(HandshakeResult::Failed(Error::TonicTransport(d))) => {
            assert_eq!(d, "transport error");
        },
        _ => panic!("the failure must still be published"),
    }
}

#[test]
fn transport_error_while_serving_is_terminal() {
    let mut b = machine();
    b.step(Event::Started);
    b.step(Event::EnvCookie(Some("hello-plugin".to_string())));
    b.step(Event::BindSucceeded("127.0.0.1:40000".to_string()));
    b.step(Event::ServerScheduled);
    b.step(Event::Emitted);
    assert_eq!(b.phase, Phase::Serving);
    let a = b.step(Event::TransportError("h2 went away".to_string()));
    match a {
        Action::Stop(Some(Error::TonicTransport(d))) => assert_eq!(d, "h2 went away"),
        _ => panic!("a transport failure ends the serving phase"),
    }
    assert_eq!(b.phase, Phase::Terminated);
}

#[test]
fn event_out_of_order_is_a_fault() {
    let mut b = machine();
    assert!(matches!(b.step(Event::Emitted), Action::Fault));
    assert_eq!(b.phase, Phase::Idle);
}

use plugin_bootstrap::channel::{ConnInfoChannel, HandshakeResult};
use plugin_bootstrap::error::Error;
use plugin_bootstrap::handshake::{ConnInfo, Network, ServerType};

fn ready() -> HandshakeResult {
    HandshakeResult::Ready(ConnInfo {
        network: Network::Tcp,
        address: "127.0.0.1:40000".to_string(),
        protocol_version: 3,
        server_type: ServerType::Grpc,
    })
}

#[test]
fn subscribe_before_publish_sees_nothing_yet() {
    let c = ConnInfoChannel::new();
    assert!(c.subscribe().is_none());
}

#[test]
fn all_subscribers_observe_the_same_outcome() {
    let mut c = ConnInfoChannel::new();
    assert!(c.publish(ready()).is_ok());
    let first = match c.subscribe() {
        Some(HandshakeResult::Ready(ci)) => ci.address.clone(),
        _ => panic!("expected the published record"),
    };
    let second = match c.subscribe() {
        Some(HandshakeResult::Ready(ci)) => ci.address.clone(),
        _ => panic!("expected the published record"),
    };
    assert_eq!(first, second);
    assert_eq!(first, "127.0.0.1:40000");
}

#[test]
fn publish_succeeds_with_no_subscriber() {
    let mut c = ConnInfoChannel::new();
    assert!(c.publish(ready()).is_ok());
}

#[test]
fn failure_is_a_first_class_outcome() {
    let mut c = ConnInfoChannel::new();
    assert!(c.publish(HandshakeResult::Failed(Error::NoTCPPortAvailable)).is_ok());
    assert!(matches!(
        c.subscribe(),
        Some(HandshakeResult::Failed(Error::NoTCPPortAvailable))
    ));
}

#[test]
fn double_publish_fails_fast_and_keeps_first_value() {
    let mut c = ConnInfoChannel::new();
    assert!(c.publish(ready()).is_ok());
    let second = c.publish(HandshakeResult::Failed(Error::NoTCPPortAvailable));
    match second {
        Err(Error::Generic(d)) => {
            assert_eq!(d, "a handshake outcome was already published on this channel");
        },
        _ => panic!("a second publish must fail fast"),
    }
    // the first outcome is untouched
    match c.subscribe() {
        Some(HandshakeResult::Ready(ci)) => assert_eq!(ci.address, "127.0.0.1:40000"),
        _ => panic!("the first published value must survive"),
    }
}

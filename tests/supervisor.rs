use iroh::registry::ProtocolMap;
use iroh::supervisor::{Action, Event, Phase, Supervisor};

fn three_protocols() -> Supervisor<&'static str> {
    let mut m = ProtocolMap::new();
    m.insert(b"/iroh-bytes/4".to_vec(), "blobs");
    m.insert(b"/iroh-gossip/0".to_vec(), "gossip");
    m.insert(b"example-proto/0".to_vec(), "echo");
    Supervisor::new(m)
}

fn connection(alpn: &[u8]) -> Event {
    Event::Connection { alpn: Some(alpn.to_vec()) }
}

#[test]
fn connection_dispatched_to_registered_handler() {
    let mut s = three_protocols();
    assert_eq!(s.step(connection(b"example-proto/0")), Action::Dispatch { index: 2 });
    assert_eq!(s.registry().get_index(2), Some(&"echo"));
    assert_eq!(s.step(connection(b"/iroh-bytes/4")), Action::Dispatch { index: 0 });
    assert_eq!(s.phase(), Phase::Running);
}

#[test]
fn unknown_alpn_rejected() {
    let mut s = three_protocols();
    assert_eq!(s.step(connection(b"nobody/0")), Action::RejectConnection);
    assert_eq!(s.step(Event::Connection { alpn: None }), Action::DropHandshake);
    assert_eq!(s.phase(), Phase::Running);
}

#[test]
fn rpc_requests_and_errors() {
    let mut s = three_protocols();
    assert_eq!(s.step(Event::RpcRequest { internal: false }), Action::HandleRpc { internal: false });
    assert_eq!(s.step(Event::RpcRequest { internal: true }), Action::HandleRpc { internal: true });
    assert_eq!(s.step(Event::RpcError { internal: true }), Action::LogRpcError { internal: true });
    assert_eq!(s.phase(), Phase::Running);
}

#[test]
fn shutdown_sequence_visits_every_handler_in_order() {
    let mut s = three_protocols();
    assert_eq!(s.step(Event::Cancelled), Action::FlushStore);
    assert_eq!(s.step(Event::StepDone), Action::ShutdownHandler { index: 0 });
    assert_eq!(s.step(Event::StepDone), Action::ShutdownHandler { index: 1 });
    assert_eq!(s.step(Event::StepDone), Action::ShutdownHandler { index: 2 });
    assert_eq!(s.step(Event::StepDone), Action::CloseEndpoint);
    assert_eq!(s.step(Event::StepDone), Action::AbortTasks);
    assert_eq!(s.step(Event::StepDone), Action::Idle);
    assert_eq!(s.phase(), Phase::Stopped);
}

#[test]
fn shutdown_with_empty_registry() {
    let mut s: Supervisor<u8> = Supervisor::new(ProtocolMap::new());
    assert_eq!(s.step(Event::Cancelled), Action::FlushStore);
    assert_eq!(s.step(Event::StepDone), Action::CloseEndpoint);
    assert_eq!(s.step(Event::StepDone), Action::AbortTasks);
    assert_eq!(s.step(Event::StepDone), Action::Idle);
    assert_eq!(s.phase(), Phase::Stopped);
}

#[test]
fn second_cancel_changes_nothing() {
    let mut s = three_protocols();
    assert_eq!(s.step(Event::Cancelled), Action::FlushStore);
    assert_eq!(s.step(Event::Cancelled), Action::Idle);
    assert_eq!(s.phase(), Phase::FlushingStore);
    for _ in 0..6 {
        s.step(Event::StepDone);
    }
    assert_eq!(s.phase(), Phase::Stopped);
    assert_eq!(s.step(Event::Cancelled), Action::Idle);
    assert_eq!(s.phase(), Phase::Stopped);
}

#[test]
fn connections_ignored_during_shutdown() {
    let mut s = three_protocols();
    s.step(Event::Cancelled);
    assert_eq!(s.step(connection(b"example-proto/0")), Action::Idle);
    assert_eq!(s.phase(), Phase::FlushingStore);
}

#[test]
fn exhausted_sources_close_endpoint() {
    let mut s = three_protocols();
    assert_eq!(s.step(Event::SourcesExhausted), Action::CloseEndpoint);
    assert_eq!(s.step(Event::StepDone), Action::AbortTasks);
    assert_eq!(s.step(Event::StepDone), Action::Idle);
    assert_eq!(s.phase(), Phase::Stopped);
}

#[test]
fn registry_unchanged_by_running() {
    let mut s = three_protocols();
    s.step(connection(b"/iroh-gossip/0"));
    s.step(Event::Cancelled);
    s.step(Event::StepDone);
    assert_eq!(s.registry().len(), 3);
    assert_eq!(s.registry().get(b"/iroh-gossip/0"), Some(&"gossip"));
}

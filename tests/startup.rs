use iroh::startup::{Startup, StartupAction, StartupEvent, StartupPhase};

#[test]
fn startup_with_gc() {
    let (mut s, first) = Startup::new(2, true);
    assert_eq!(first, StartupAction::BindEndpoint);
    assert_eq!(s.step(StartupEvent::Succeeded), StartupAction::BuildProtocol { index: 0 });
    assert_eq!(s.step(StartupEvent::Succeeded), StartupAction::BuildProtocol { index: 1 });
    assert_eq!(s.step(StartupEvent::Succeeded), StartupAction::SpawnSupervisor);
    assert_eq!(s.step(StartupEvent::Succeeded), StartupAction::SpawnGc);
    assert_eq!(s.step(StartupEvent::Succeeded), StartupAction::SpawnFanout);
    assert_eq!(s.step(StartupEvent::Succeeded), StartupAction::WaitForAddress { secs: 5 });
    assert_eq!(s.step(StartupEvent::Succeeded), StartupAction::Ready);
    assert_eq!(s.phase(), StartupPhase::Ready);
    assert_eq!(s.step(StartupEvent::Failed), StartupAction::Idle);
}

#[test]
fn startup_without_protocols_or_gc() {
    let (mut s, _) = Startup::new(0, false);
    assert_eq!(s.step(StartupEvent::Succeeded), StartupAction::SpawnSupervisor);
    assert_eq!(s.step(StartupEvent::Succeeded), StartupAction::SpawnFanout);
}

#[test]
fn startup_failure_shuts_store_down() {
    let (mut s, _) = Startup::new(3, false);
    s.step(StartupEvent::Succeeded);
    assert_eq!(s.step(StartupEvent::Failed), StartupAction::ShutdownStore);
    assert_eq!(s.step(StartupEvent::Succeeded), StartupAction::Fail);
    assert_eq!(s.phase(), StartupPhase::Failed);
}

#[test]
fn address_timeout_is_fatal() {
    let (mut s, _) = Startup::new(0, false);
    s.step(StartupEvent::Succeeded);
    s.step(StartupEvent::Succeeded);
    s.step(StartupEvent::Succeeded);
    assert_eq!(s.step(StartupEvent::Failed), StartupAction::ShutdownStore);
}

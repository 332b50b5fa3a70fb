use iroh::gc::{GcAction, GcCycle, GcEvent, GcPhase, BlobHash};

fn h(b: u8) -> BlobHash {
    [b; 32]
}

#[test]
fn cycle_without_contributors() {
    let (mut g, first) = GcCycle::new(false, false);
    assert_eq!(first, GcAction::StartCycle { callback: false });
    assert_eq!(g.step(GcEvent::Started { ok: true }), GcAction::Sleep);
    assert_eq!(g.step(GcEvent::Woke), GcAction::Mark);
    assert_eq!(g.step(GcEvent::Marked(h(1))), GcAction::Idle);
    assert_eq!(g.step(GcEvent::Debug), GcAction::LogDebug);
    assert_eq!(g.step(GcEvent::Warning), GcAction::LogWarning);
    assert_eq!(g.step(GcEvent::PhaseDone), GcAction::Sweep);
    assert!(!g.is_garbage(&h(1)));
    assert!(g.is_garbage(&h(2)));
    assert_eq!(g.step(GcEvent::PhaseDone), GcAction::StartCycle { callback: false });
    assert_eq!(g.phase(), GcPhase::Starting);
}

#[test]
fn contributed_hashes_survive_sweep() {
    let (mut g, _) = GcCycle::new(true, true);
    g.step(GcEvent::Started { ok: true });
    assert_eq!(g.step(GcEvent::Woke), GcAction::CollectLive);
    g.step(GcEvent::Live(h(7)));
    g.step(GcEvent::Live(h(7)));
    g.step(GcEvent::Live(h(9)));
    assert_eq!(g.live().len(), 2);
    assert_eq!(g.step(GcEvent::ContributionsDone), GcAction::Mark);
    g.step(GcEvent::Marked(h(3)));
    assert_eq!(g.step(GcEvent::PhaseDone), GcAction::Sweep);
    assert!(!g.is_garbage(&h(7)));
    assert!(!g.is_garbage(&h(9)));
    assert!(!g.is_garbage(&h(3)));
    assert!(g.is_garbage(&h(4)));
    assert_eq!(g.step(GcEvent::PhaseDone), GcAction::StartCycle { callback: true });
}

#[test]
fn failed_contribution_abandons_cycle() {
    let (mut g, _) = GcCycle::new(true, true);
    g.step(GcEvent::Started { ok: true });
    g.step(GcEvent::Woke);
    g.step(GcEvent::Live(h(1)));
    assert_eq!(g.step(GcEvent::ContributionFailed), GcAction::StartCycle { callback: false });
    assert_eq!(g.phase(), GcPhase::Starting);
}

#[test]
fn mark_error_skips_sweep() {
    let (mut g, _) = GcCycle::new(false, true);
    g.step(GcEvent::Started { ok: true });
    g.step(GcEvent::Woke);
    assert_eq!(g.step(GcEvent::Failed), GcAction::StartCycle { callback: false });
    assert_eq!(g.step(GcEvent::PhaseDone), GcAction::Idle);
    assert_eq!(g.phase(), GcPhase::Starting);
}

#[test]
fn sweep_error_abandons_cycle() {
    let (mut g, _) = GcCycle::new(false, true);
    g.step(GcEvent::Started { ok: true });
    g.step(GcEvent::Woke);
    g.step(GcEvent::PhaseDone);
    assert_eq!(g.step(GcEvent::Failed), GcAction::StartCycle { callback: false });
}

#[test]
fn refused_start_exits_loop() {
    let (mut g, _) = GcCycle::new(true, false);
    assert_eq!(g.step(GcEvent::Started { ok: false }), GcAction::Exit);
    assert_eq!(g.phase(), GcPhase::Exited);
    assert_eq!(g.step(GcEvent::Started { ok: true }), GcAction::Idle);
}

#[test]
fn live_set_cleared_each_cycle() {
    let (mut g, _) = GcCycle::new(true, false);
    g.step(GcEvent::Started { ok: true });
    g.step(GcEvent::Woke);
    g.step(GcEvent::Live(h(5)));
    g.step(GcEvent::ContributionsDone);
    g.step(GcEvent::PhaseDone);
    g.step(GcEvent::PhaseDone);
    g.step(GcEvent::Started { ok: true });
    g.step(GcEvent::Woke);
    assert_eq!(g.live().len(), 0);
    assert!(!g.is_live(&h(5)));
}

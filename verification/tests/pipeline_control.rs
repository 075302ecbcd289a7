use sysmon::pipeline::LoopControl;
use sysmon::pipeline::SamplerAction;
use sysmon::pipeline::SamplerPhase;
use sysmon::pipeline::SamplerProtocol;
use sysmon::pipeline::SamplingLoop;
use sysmon::pipeline::SendOutcome;
use sysmon::pipeline::DEFAULT_PERIOD_MS;
use sysmon::pipeline::SETTLE_MS;

#[test]
fn sampler_cycle_is_refresh_settle_refresh_extract() {
    let mut protocol = SamplerProtocol::new();
    assert_eq!(protocol.phase, SamplerPhase::FirstRefresh);
    assert_eq!(protocol.next_action(), SamplerAction::Refresh);
    assert_eq!(protocol.next_action(), SamplerAction::Wait(SETTLE_MS));
    assert_eq!(protocol.next_action(), SamplerAction::Refresh);
    assert_eq!(protocol.next_action(), SamplerAction::Extract);
    // The next cycle starts over.
    assert_eq!(protocol.next_action(), SamplerAction::Refresh);
}

#[test]
fn settling_delay_is_two_hundred_milliseconds() {
    assert_eq!(SETTLE_MS, 200);
    assert_eq!(DEFAULT_PERIOD_MS, 1000);
}

#[test]
fn loop_runs_while_snapshots_are_delivered() {
    let mut ctl = SamplingLoop::new(DEFAULT_PERIOD_MS);
    assert!(ctl.may_sample());
    assert_eq!(ctl.on_send(SendOutcome::Delivered), LoopControl::Continue);
    assert!(ctl.may_sample());
    assert_eq!(ctl.on_send(SendOutcome::Delivered), LoopControl::Continue);
    assert!(ctl.may_sample());
}

#[test]
fn loop_stops_when_the_consumer_goes_away() {
    let mut ctl = SamplingLoop::new(500);
    assert_eq!(ctl.on_send(SendOutcome::Delivered), LoopControl::Continue);
    assert_eq!(ctl.on_send(SendOutcome::Disconnected), LoopControl::Stop);
    // No further cycle may sample, whatever happens afterwards.
    assert!(!ctl.may_sample());
    assert_eq!(ctl.on_send(SendOutcome::Delivered), LoopControl::Stop);
    assert!(!ctl.may_sample());
}

#[test]
fn controller_keeps_its_period() {
    let mut ctl = SamplingLoop::new(750);
    assert_eq!(ctl.period_ms, 750);
    ctl.on_send(SendOutcome::Disconnected);
    assert_eq!(ctl.period_ms, 750);
}

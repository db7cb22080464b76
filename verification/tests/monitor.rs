use rabbitnut::binary64::Binary64;
use rabbitnut::config::{Config, ShutdownConfig};
use rabbitnut::monitor::{
    countdown_announced, remaining_notice, shutdown_trigger, split_command, MonitorState, NextStep,
    Phase, PowerChange, ShutdownTrigger, UpsMonitor,
};
use rabbitnut::ups::{ProtocolFault, UpsError, UpsStatus};
use std::time::Instant;

fn num(f: f64) -> Binary64 {
    Binary64::from_bits(f.to_bits())
}

fn status(charge: f64, runtime: u64, on_battery: bool) -> UpsStatus {
    UpsStatus {
        battery_charge: num(charge),
        battery_runtime: runtime,
        ups_status: if on_battery { "OB DISCHRG".to_string() } else { "OL".to_string() },
        on_battery,
        output_power: None,
    }
}

fn shutdown_config(enabled: bool) -> ShutdownConfig {
    ShutdownConfig {
        enabled,
        on_battery_seconds: 300,
        battery_percent_threshold: num(20.0),
        runtime_threshold: 180,
        shutdown_command: "/sbin/shutdown -h +0".to_string(),
        shutdown_grace_period: 30,
    }
}

fn monitor(enabled: bool) -> UpsMonitor {
    let mut config = Config::default();
    config.shutdown = shutdown_config(enabled);
    config.monitoring.poll_interval = 7;
    UpsMonitor::new(config)
}

#[test]
fn a_new_monitor_is_on_line_with_nothing_scheduled() {
    let m = monitor(true);
    assert!(m.state().on_battery_since().is_none());
    assert!(!m.state().shutdown_scheduled());
    assert_eq!(m.state().phase(), Phase::OnLine);
    assert_eq!(m.client().address(), "localhost:3493");
    assert_eq!(m.client().name(), "ups");
    assert_eq!(m.config().monitoring.poll_interval, 7);
    assert_eq!(m.next_step(), NextStep::Sleep(7));
}

#[test]
fn first_reading_on_battery_switches_to_battery() {
    let mut m = monitor(true);
    assert_eq!(m.state().phase(), Phase::OnLine);
    let report = m.monitor_cycle(Ok(status(90.0, 2000, true))).expect("cycle");
    assert_eq!(report.change, PowerChange::SwitchedToBattery);
    assert!(m.state().on_battery_since().is_some());
    assert_eq!(m.state().phase(), Phase::OnBattery);
    assert_eq!(report.on_battery_duration, None);
    assert_eq!(report.trigger, None);
    assert!(report.shutdown.is_none());
}

#[test]
fn time_on_battery_beyond_the_limit_triggers_shutdown() {
    let config = shutdown_config(true);
    let reading = status(90.0, 2000, true);
    assert_eq!(
        shutdown_trigger(&config, false, &reading, Some(301)),
        Some(ShutdownTrigger::TimeOnBattery)
    );
    assert_eq!(
        shutdown_trigger(&config, false, &reading, Some(300)),
        Some(ShutdownTrigger::TimeOnBattery)
    );
    assert_eq!(shutdown_trigger(&config, false, &reading, Some(299)), None);
    assert_eq!(shutdown_trigger(&config, false, &reading, None), None);
}

#[test]
fn low_charge_triggers_shutdown_at_once() {
    let config = shutdown_config(true);
    let reading = status(15.0, 2000, true);
    assert_eq!(
        shutdown_trigger(&config, false, &reading, Some(0)),
        Some(ShutdownTrigger::BatteryCharge)
    );
    assert_eq!(
        shutdown_trigger(&config, false, &reading, None),
        Some(ShutdownTrigger::BatteryCharge)
    );
    // Through the monitor, on the very first reading on battery.
    let mut m = monitor(true);
    let report = m.monitor_cycle(Ok(status(15.0, 2000, true))).expect("cycle");
    assert_eq!(report.trigger, Some(ShutdownTrigger::BatteryCharge));
    let plan = report.shutdown.expect("a plan");
    assert_eq!(plan.grace_period, 30);
    let command = plan.command.expect("a command");
    assert_eq!(command.program, "/sbin/shutdown");
    assert_eq!(command.args, vec!["-h", "+0"]);
    assert!(m.state().shutdown_scheduled());
    assert_eq!(m.state().phase(), Phase::ShutdownScheduled);
    assert_eq!(m.next_step(), NextStep::Stop);
}

#[test]
fn triggers_are_alternatives() {
    let config = shutdown_config(true);
    assert_eq!(
        shutdown_trigger(&config, false, &status(20.0, 2000, true), Some(0)),
        Some(ShutdownTrigger::BatteryCharge)
    );
    assert_eq!(shutdown_trigger(&config, false, &status(20.5, 2000, true), Some(0)), None);
    assert_eq!(
        shutdown_trigger(&config, false, &status(90.0, 180, true), Some(0)),
        Some(ShutdownTrigger::BatteryRuntime)
    );
    assert_eq!(shutdown_trigger(&config, false, &status(90.0, 181, true), Some(0)), None);
    // The first condition that holds is named.
    assert_eq!(
        shutdown_trigger(&config, false, &status(5.0, 10, true), Some(1000)),
        Some(ShutdownTrigger::TimeOnBattery)
    );
    assert_eq!(
        shutdown_trigger(&config, false, &status(5.0, 10, true), Some(1)),
        Some(ShutdownTrigger::BatteryCharge)
    );
}

#[test]
fn nothing_triggers_when_disabled_scheduled_or_on_line() {
    let dire = status(1.0, 1, true);
    assert_eq!(shutdown_trigger(&shutdown_config(false), false, &dire, Some(9999)), None);
    assert_eq!(shutdown_trigger(&shutdown_config(true), true, &dire, Some(9999)), None);
    assert_eq!(
        shutdown_trigger(&shutdown_config(true), false, &status(1.0, 1, false), Some(9999)),
        None
    );
}

#[test]
fn a_charge_that_is_no_number_reads_as_zero_and_triggers() {
    // A reading whose charge could not be read carries zero, which is below any
    // sensible threshold: the shutdown fires.
    let config = shutdown_config(true);
    let reading = UpsStatus { battery_charge: Binary64::zero(), ..status(0.0, 5000, true) };
    assert_eq!(
        shutdown_trigger(&config, false, &reading, Some(0)),
        Some(ShutdownTrigger::BatteryCharge)
    );
}

#[test]
fn on_battery_since_follows_the_latest_reading() {
    let mut m = monitor(false);
    for on_battery in [false, true, true, false, false, true, false, true, true, true] {
        m.monitor_cycle(Ok(status(90.0, 2000, on_battery))).expect("cycle");
        assert_eq!(m.state().on_battery_since().is_some(), on_battery);
    }
}

#[test]
fn on_battery_since_is_kept_while_on_battery() {
    let mut m = monitor(false);
    m.monitor_cycle(Ok(status(90.0, 2000, true))).expect("cycle");
    let since = m.state().on_battery_since();
    let report = m.monitor_cycle(Ok(status(80.0, 1900, true))).expect("cycle");
    assert_eq!(report.change, PowerChange::Unchanged);
    assert!(report.on_battery_duration.is_some());
    assert_eq!(m.state().on_battery_since(), since);
    let report = m.monitor_cycle(Ok(status(80.0, 1900, false))).expect("cycle");
    assert_eq!(report.change, PowerChange::BackOnLine);
    assert!(report.on_battery_duration.is_some());
    assert_eq!(m.state().on_battery_since(), None);
    let report = m.monitor_cycle(Ok(status(80.0, 1900, false))).expect("cycle");
    assert_eq!(report.change, PowerChange::Unchanged);
    assert_eq!(report.on_battery_duration, None);
}

#[test]
fn observe_records_the_instant_it_is_given() {
    let mut s = MonitorState::new();
    let t0 = Instant::now();
    assert_eq!(s.observe(true, t0), PowerChange::SwitchedToBattery);
    assert_eq!(s.on_battery_since(), Some(t0));
    let t1 = Instant::now();
    assert_eq!(s.observe(true, t1), PowerChange::Unchanged);
    assert_eq!(s.on_battery_since(), Some(t0));
    assert_eq!(s.observe(false, t1), PowerChange::BackOnLine);
    assert_eq!(s.on_battery_since(), None);
    assert_eq!(s.observe(false, t1), PowerChange::Unchanged);
}

#[test]
fn shutdown_is_scheduled_once() {
    let mut m = monitor(true);
    let first = m.monitor_cycle(Ok(status(10.0, 2000, true))).expect("cycle");
    assert!(first.shutdown.is_some());
    assert!(m.state().shutdown_scheduled());
    // Later cycles evaluate nothing and hand out no plan; the flag stays.
    for reading in [status(5.0, 1, true), status(100.0, 9000, false), status(1.0, 1, true)] {
        assert!(!m.should_shutdown(&reading));
        let later = m.monitor_cycle(Ok(reading)).expect("cycle");
        assert_eq!(later.trigger, None);
        assert!(later.shutdown.is_none());
        assert!(m.state().shutdown_scheduled());
        assert_eq!(m.next_step(), NextStep::Stop);
    }
    assert!(m.execute_shutdown().is_none());
    assert!(m.state().shutdown_scheduled());
}

#[test]
fn execute_shutdown_sets_the_flag_first() {
    let mut m = monitor(true);
    let plan = m.execute_shutdown().expect("first call plans");
    assert_eq!(plan.grace_period, 30);
    assert!(m.state().shutdown_scheduled());
    assert!(m.execute_shutdown().is_none());
    let mut s = MonitorState::new();
    assert!(s.schedule_shutdown());
    assert!(!s.schedule_shutdown());
    assert!(s.shutdown_scheduled());
}

#[test]
fn should_shutdown_without_time_on_battery() {
    let m = monitor(true);
    assert!(m.should_shutdown(&status(15.0, 2000, true)));
    assert!(m.should_shutdown(&status(90.0, 100, true)));
    assert!(!m.should_shutdown(&status(90.0, 2000, true)));
    assert!(!m.should_shutdown(&status(15.0, 100, false)));
    assert!(!monitor(false).should_shutdown(&status(15.0, 100, true)));
    assert_eq!(
        m.evaluate_triggers(&status(90.0, 100, true)),
        Some(ShutdownTrigger::BatteryRuntime)
    );
}

#[test]
fn a_failed_reading_skips_the_cycle() {
    let mut m = monitor(true);
    m.monitor_cycle(Ok(status(90.0, 2000, true))).expect("cycle");
    let since = m.state().on_battery_since();
    let failure = UpsError::Protocol(ProtocolFault::ErrorReply);
    assert_eq!(m.monitor_cycle(Err(failure)).err(), Some(failure));
    assert_eq!(m.monitor_cycle(Err(UpsError::Connection)).err(), Some(UpsError::Connection));
    assert_eq!(m.state().on_battery_since(), since);
    assert!(!m.state().shutdown_scheduled());
    assert_eq!(m.next_step(), NextStep::Sleep(7));
    // The loop goes on: the next reading is taken in as usual.
    let report = m.monitor_cycle(Ok(status(90.0, 2000, false))).expect("cycle");
    assert_eq!(report.change, PowerChange::BackOnLine);
}

#[test]
fn an_empty_command_plans_no_command() {
    let mut config = Config::default();
    config.shutdown = shutdown_config(true);
    config.shutdown.shutdown_command = "   ".to_string();
    config.shutdown.shutdown_grace_period = 3;
    let mut m = UpsMonitor::new(config);
    let plan = m.execute_shutdown().expect("a plan");
    assert_eq!(plan.grace_period, 3);
    assert!(plan.command.is_none());
    assert!(m.state().shutdown_scheduled());
}

#[test]
fn split_command_splits_at_white_space_only() {
    let c = split_command("/sbin/shutdown -h +0").expect("a command");
    assert_eq!(c.program, "/sbin/shutdown");
    assert_eq!(c.args, vec!["-h", "+0"]);
    let c = split_command("  poweroff  ").expect("a command");
    assert_eq!(c.program, "poweroff");
    assert!(c.args.is_empty());
    // Quotes are not understood.
    let c = split_command("sh -c \"echo bye\"").expect("a command");
    assert_eq!(c.program, "sh");
    assert_eq!(c.args, vec!["-c", "\"echo", "bye\""]);
    assert!(split_command("").is_none());
    assert!(split_command(" \t\n").is_none());
}

#[test]
fn countdown_announcements() {
    let announced: Vec<u64> = (1..=35).filter(|i| countdown_announced(*i)).collect();
    assert_eq!(announced, vec![1, 2, 3, 4, 5, 6, 7, 8, 9, 10, 20, 30]);
    assert!(countdown_announced(0));
}

#[test]
fn remaining_notices() {
    assert_eq!(remaining_notice(300, 0), Some(300));
    assert_eq!(remaining_notice(300, 1), None);
    assert_eq!(remaining_notice(300, 60), Some(240));
    assert_eq!(remaining_notice(300, 269), None);
    assert_eq!(remaining_notice(300, 270), Some(30));
    assert_eq!(remaining_notice(300, 299), Some(1));
    assert_eq!(remaining_notice(300, 300), None);
    assert_eq!(remaining_notice(300, 301), None);
}

#[test]
fn the_first_cycle_on_battery_gives_a_notice_where_one_is_due() {
    // 300 seconds are left on the first reading on battery: a full minute count.
    let mut m = monitor(true);
    let report = m.monitor_cycle(Ok(status(90.0, 2000, true))).expect("cycle");
    assert_eq!(report.notice, Some(300));
    let mut m = monitor(false);
    let report = m.monitor_cycle(Ok(status(90.0, 2000, true))).expect("cycle");
    assert_eq!(report.notice, None);
}

//! The battery and shutdown state machine.
//!
//! Each poll cycle hands one reading to [`UpsMonitor::monitor_cycle`], which
//! tracks since when the device has run on battery and decides whether the
//! host must be shut down. Sleeping between cycles, counting the grace period
//! down and running the shutdown command are the caller's, as told by
//! [`UpsMonitor::next_step`] and by the [`ShutdownPlan`].

use crate::binary64::at_or_below;
use crate::clock::seconds_since;
use crate::config::{Config, ConfigView, ShutdownConfig, ShutdownConfigView, UpsConfigView};
use crate::text::{chars_of, split_whitespace, string_of, string_views, tokens, views};
use crate::ups::{UpsClient, UpsClientView, UpsError, UpsStatus, UpsStatusView};
use std::time::Instant;
use vstd::prelude::*;

verus! {

// ---------------------------------------------------------------------------
// Shutdown triggers
// ---------------------------------------------------------------------------

/// The condition that made a shutdown due.
#[derive(Clone, Copy, Debug, PartialEq, Eq, Structural)]
pub enum ShutdownTrigger {
    /// The device has been on battery for the configured time or longer.
    TimeOnBattery,
    /// The charge is at or below the configured percentage.
    BatteryCharge,
    /// The runtime estimate is at or below the configured seconds.
    BatteryRuntime,
}

/// The trigger that fires for `status`, if any.
///
/// None fires unless shutdown is enabled, no shutdown is scheduled yet and
/// the device is on battery. Then each of the three conditions suffices, and
/// the first that holds, in the order of [`ShutdownTrigger`], is named.
/// `elapsed` is the time on battery in seconds, where it is known.
pub open spec fn trigger_of(
    config: ShutdownConfigView,
    scheduled: bool,
    status: UpsStatusView,
    elapsed: Option<u64>,
) -> Option<ShutdownTrigger> {
    if !config.enabled || scheduled || !status.on_battery {
        None
    } else if elapsed is Some && elapsed->0 >= config.on_battery_seconds {
        Some(ShutdownTrigger::TimeOnBattery)
    } else if at_or_below(status.battery_charge, config.battery_percent_threshold) {
        Some(ShutdownTrigger::BatteryCharge)
    } else if status.battery_runtime <= config.runtime_threshold {
        Some(ShutdownTrigger::BatteryRuntime)
    } else {
        None
    }
}

/// Evaluates the shutdown triggers for one reading.
pub fn shutdown_trigger(
    config: &ShutdownConfig,
    scheduled: bool,
    status: &UpsStatus,
    elapsed: Option<u64>,
) -> (trigger: Option<ShutdownTrigger>)
    ensures
        trigger == trigger_of(config@, scheduled, status@, elapsed),
{
    if !config.enabled || scheduled || !status.on_battery {
        return None;
    }
    if let Some(seconds) = elapsed {
        if seconds >= config.on_battery_seconds {
            return Some(ShutdownTrigger::TimeOnBattery);
        }
    }
    if status.battery_charge.le(&config.battery_percent_threshold) {
        Some(ShutdownTrigger::BatteryCharge)
    } else if status.battery_runtime <= config.runtime_threshold {
        Some(ShutdownTrigger::BatteryRuntime)
    } else {
        None
    }
}

/// The seconds left until the time trigger fires, at the moments a warning
/// is due: on every full minute left, and throughout the last 30 seconds.
pub open spec fn notice_of(on_battery_seconds: u64, elapsed: u64) -> Option<u64> {
    if elapsed < on_battery_seconds && ((on_battery_seconds - elapsed) % 60 == 0
        || on_battery_seconds - elapsed <= 30) {
        Some((on_battery_seconds - elapsed) as u64)
    } else {
        None
    }
}

/// The warning that goes with a reading: one is due only while shutdown
/// is enabled, none is scheduled and the device is on battery for a known
/// time that has not reached the limit yet.
pub open spec fn notice_for(
    config: ShutdownConfigView,
    scheduled: bool,
    status: UpsStatusView,
    elapsed: Option<u64>,
) -> Option<u64> {
    if config.enabled && !scheduled && status.on_battery && elapsed is Some {
        notice_of(config.on_battery_seconds, elapsed->0)
    } else {
        None
    }
}

/// The seconds left until the time trigger fires, where a warning is due.
pub fn remaining_notice(on_battery_seconds: u64, elapsed: u64) -> (notice: Option<u64>)
    ensures
        notice == notice_of(on_battery_seconds, elapsed),
{
    if elapsed < on_battery_seconds {
        let remaining: u64 = on_battery_seconds - elapsed;
        if remaining % 60 == 0 || remaining <= 30 {
            return Some(remaining);
        }
    }
    None
}

/// The conditions are alternatives: a charge at or below the threshold
/// fires whatever the time on battery, even none at all, and so does a
/// runtime estimate at or below its threshold.
pub proof fn lemma_triggers_are_alternatives(
    config: ShutdownConfigView,
    status: UpsStatusView,
    elapsed: Option<u64>,
)
    requires
        config.enabled,
        status.on_battery,
    ensures
        at_or_below(status.battery_charge, config.battery_percent_threshold) ==> trigger_of(
            config,
            false,
            status,
            elapsed,
        ) is Some,
        status.battery_runtime <= config.runtime_threshold ==> trigger_of(
            config,
            false,
            status,
            elapsed,
        ) is Some,
        elapsed is Some && elapsed->0 >= config.on_battery_seconds ==> trigger_of(
            config,
            false,
            status,
            elapsed,
        ) is Some,
        trigger_of(config, false, status, elapsed) is Some <==> (elapsed is Some && elapsed->0
            >= config.on_battery_seconds) || at_or_below(
            status.battery_charge,
            config.battery_percent_threshold,
        ) || status.battery_runtime <= config.runtime_threshold,
{
}

// ---------------------------------------------------------------------------
// The shutdown itself
// ---------------------------------------------------------------------------

/// A program and its arguments.
#[derive(Debug)]
pub struct ShutdownCommand {
    pub program: String,
    pub args: Vec<String>,
}

/// What a command says.
pub struct ShutdownCommandView {
    pub program: Seq<char>,
    pub args: Seq<Seq<char>>,
}

impl View for ShutdownCommand {
    type V = ShutdownCommandView;

    open spec fn view(&self) -> ShutdownCommandView {
        ShutdownCommandView { program: self.program@, args: string_views(self.args@) }
    }
}

/// What is left to do once a shutdown is decided: count the grace period
/// down, one second at a time, then run the command.
#[derive(Debug)]
pub struct ShutdownPlan {
    /// Seconds to count down before the command runs.
    pub grace_period: u64,
    /// The command to run; `None` where the configured command is empty,
    /// in which case nothing is run.
    pub command: Option<ShutdownCommand>,
}

/// What a plan says.
pub struct ShutdownPlanView {
    pub grace_period: u64,
    pub command: Option<ShutdownCommandView>,
}

impl View for ShutdownPlan {
    type V = ShutdownPlanView;

    open spec fn view(&self) -> ShutdownPlanView {
        ShutdownPlanView {
            grace_period: self.grace_period,
            command: match self.command {
                Some(c) => Some(c@),
                None => None,
            },
        }
    }
}

/// The command that the words of a command line make: the first word is the
/// program, the others are its arguments. No words, no command.
pub open spec fn command_of(words: Seq<Seq<char>>) -> Option<ShutdownCommandView> {
    if words.len() == 0 {
        None
    } else {
        Some(ShutdownCommandView { program: words[0], args: words.skip(1) })
    }
}

/// The plan that a configuration asks for.
pub open spec fn plan_of(config: ShutdownConfigView) -> ShutdownPlanView {
    ShutdownPlanView {
        grace_period: config.shutdown_grace_period,
        command: command_of(tokens(config.shutdown_command)),
    }
}

/// Splits a command line at white space into the program and its arguments.
/// Quotes mean nothing here, and nothing is expanded.
pub fn split_command(command: &str) -> (r: Option<ShutdownCommand>)
    ensures
        (match r {
            Some(c) => Some(c@),
            None => None,
        }) == command_of(tokens(command@)),
{
    let words = split_whitespace(&chars_of(command));
    if words.len() == 0 {
        return None;
    }
    let program = string_of(&words[0]);
    let mut args: Vec<String> = Vec::new();
    let mut i: usize = 1;
    while i < words.len()
        invariant
            1 <= i <= words.len(),
            string_views(args@) == views(words@).subrange(1, i as int),
        decreases words.len() - i,
    {
        let arg = string_of(&words[i]);
        proof {
            assert(string_views(args@.push(arg)) == string_views(args@).push(arg@));
            assert(views(words@).subrange(1, i + 1) == views(words@).subrange(1, i as int).push(
                words@[i as int]@,
            ));
        }
        args.push(arg);
        i += 1;
    }
    assert(views(words@).subrange(1, words.len() as int) == views(words@).skip(1));
    Some(ShutdownCommand { program, args })
}

/// Whether the countdown announces that `remaining` seconds are left: each
/// of the last ten seconds, and every tenth second before.
pub fn countdown_announced(remaining: u64) -> (announced: bool)
    ensures
        announced == (remaining <= 10 || remaining % 10 == 0),
{
    remaining <= 10 || remaining % 10 == 0
}

// ---------------------------------------------------------------------------
// The state
// ---------------------------------------------------------------------------

/// Where the state machine stands.
#[derive(Clone, Copy, Debug, PartialEq, Eq, Structural)]
pub enum Phase {
    /// The device runs on line power.
    OnLine,
    /// The device runs on battery and no shutdown is due yet.
    OnBattery,
    /// A shutdown has been decided. The loop ends once it is carried out.
    ShutdownScheduled,
}

/// What a reading changed about the power source.
#[derive(Clone, Copy, Debug, PartialEq, Eq, Structural)]
pub enum PowerChange {
    Unchanged,
    SwitchedToBattery,
    BackOnLine,
}

/// What the monitor remembers between cycles.
pub struct MonitorState {
    on_battery_since: Option<Instant>,
    shutdown_scheduled: bool,
}

/// What the monitor remembers.
pub struct MonitorStateView {
    /// When the device went on battery; `None` while it is on line power.
    pub on_battery_since: Option<Instant>,
    /// Whether a shutdown has been decided. Never reset.
    pub shutdown_scheduled: bool,
}

impl View for MonitorState {
    type V = MonitorStateView;

    closed spec fn view(&self) -> MonitorStateView {
        MonitorStateView {
            on_battery_since: self.on_battery_since,
            shutdown_scheduled: self.shutdown_scheduled,
        }
    }
}

/// The state at the start: on line power, nothing scheduled.
pub open spec fn initial_state() -> MonitorStateView {
    MonitorStateView { on_battery_since: None, shutdown_scheduled: false }
}

/// The phase a state is in.
pub open spec fn phase_of(state: MonitorStateView) -> Phase {
    if state.shutdown_scheduled {
        Phase::ShutdownScheduled
    } else if state.on_battery_since is Some {
        Phase::OnBattery
    } else {
        Phase::OnLine
    }
}

/// The state after a reading taken at `now`: the first reading on battery
/// records `now`, later ones keep it, and a reading on line power clears it.
pub open spec fn observed(state: MonitorStateView, on_battery: bool, now: Instant) -> MonitorStateView {
    MonitorStateView {
        on_battery_since: if !on_battery {
            None
        } else if state.on_battery_since is Some {
            state.on_battery_since
        } else {
            Some(now)
        },
        shutdown_scheduled: state.shutdown_scheduled,
    }
}

/// What a reading changes about the power source.
pub open spec fn power_change(was_on_battery: bool, on_battery: bool) -> PowerChange {
    if on_battery && !was_on_battery {
        PowerChange::SwitchedToBattery
    } else if !on_battery && was_on_battery {
        PowerChange::BackOnLine
    } else {
        PowerChange::Unchanged
    }
}

impl MonitorState {
    /// The state at the start.
    pub fn new() -> (state: Self)
        ensures
            state@ == initial_state(),
    {
        MonitorState { on_battery_since: None, shutdown_scheduled: false }
    }

    /// When the device went on battery, if it is on battery.
    pub fn on_battery_since(&self) -> (since: Option<Instant>)
        ensures
            since == self@.on_battery_since,
    {
        self.on_battery_since
    }

    /// Whether a shutdown has been decided.
    pub fn shutdown_scheduled(&self) -> (scheduled: bool)
        ensures
            scheduled == self@.shutdown_scheduled,
    {
        self.shutdown_scheduled
    }

    /// The phase the state is in.
    pub fn phase(&self) -> (phase: Phase)
        ensures
            phase == phase_of(self@),
    {
        if self.shutdown_scheduled {
            Phase::ShutdownScheduled
        } else if self.on_battery_since.is_some() {
            Phase::OnBattery
        } else {
            Phase::OnLine
        }
    }

    /// Takes in a reading made at `now`.
    pub fn observe(&mut self, on_battery: bool, now: Instant) -> (change: PowerChange)
        ensures
            final(self)@ == observed(old(self)@, on_battery, now),
            change == power_change(old(self)@.on_battery_since is Some, on_battery),
    {
        let was_on_battery = self.on_battery_since.is_some();
        if on_battery {
            if !was_on_battery {
                self.on_battery_since = Some(now);
                return PowerChange::SwitchedToBattery;
            }
        } else if was_on_battery {
            self.on_battery_since = None;
            return PowerChange::BackOnLine;
        }
        PowerChange::Unchanged
    }

    /// Marks the shutdown as decided. Says whether this call decided it:
    /// `false` means it had been decided before and nothing changed.
    pub fn schedule_shutdown(&mut self) -> (newly: bool)
        ensures
            final(self)@.shutdown_scheduled,
            final(self)@.on_battery_since == old(self)@.on_battery_since,
            newly == !old(self)@.shutdown_scheduled,
    {
        let newly = !self.shutdown_scheduled;
        self.shutdown_scheduled = true;
        newly
    }
}

// ---------------------------------------------------------------------------
// Laws of the state
// ---------------------------------------------------------------------------

/// The state after a run of readings, each given as whether the device was
/// on battery and the instant the reading was taken in.
pub open spec fn after_readings(state: MonitorStateView, readings: Seq<(bool, Instant)>) -> MonitorStateView
    decreases readings.len(),
{
    if readings.len() == 0 {
        state
    } else {
        observed(after_readings(state, readings.drop_last()), readings.last().0, readings.last().1)
    }
}

/// After any run of readings the time of going on battery is recorded
/// exactly when the latest reading was on battery. Readings never touch the
/// shutdown flag.
pub proof fn lemma_on_battery_since_follows_latest(
    state: MonitorStateView,
    readings: Seq<(bool, Instant)>,
)
    requires
        readings.len() > 0,
    ensures
        after_readings(state, readings).on_battery_since is Some <==> readings.last().0,
        after_readings(state, readings).shutdown_scheduled == state.shutdown_scheduled,
    decreases readings.len(),
{
    if readings.len() > 1 {
        lemma_on_battery_since_follows_latest(state, readings.drop_last());
    } else {
        assert(after_readings(state, readings.drop_last()) == state);
    }
}

/// While the device stays on battery the recorded instant does not move: a
/// reading on battery that follows a state already on battery keeps it.
pub proof fn lemma_on_battery_since_is_kept(state: MonitorStateView, now: Instant)
    requires
        state.on_battery_since is Some,
    ensures
        observed(state, true, now).on_battery_since == state.on_battery_since,
{
}

/// Once a shutdown is scheduled no trigger fires again, whatever is read.
pub proof fn lemma_scheduled_is_final(
    config: ShutdownConfigView,
    status: UpsStatusView,
    elapsed: Option<u64>,
)
    ensures
        trigger_of(config, true, status, elapsed) is None,
{
}

/// The state and the trigger after one cycle on a reading that was taken
/// in at `now`, with `elapsed` seconds on battery measured after that.
pub open spec fn cycle_of(
    config: ShutdownConfigView,
    state: MonitorStateView,
    status: UpsStatusView,
    now: Instant,
    elapsed: u64,
) -> (MonitorStateView, Option<ShutdownTrigger>) {
    let seen = observed(state, status.on_battery, now);
    let trigger = trigger_of(
        config,
        state.shutdown_scheduled,
        status,
        if seen.on_battery_since is Some {
            Some(elapsed)
        } else {
            None
        },
    );
    (
        MonitorStateView {
            on_battery_since: seen.on_battery_since,
            shutdown_scheduled: state.shutdown_scheduled || trigger is Some,
        },
        trigger,
    )
}

/// The state after a run of cycles, each given as the reading, the instant
/// it was taken in and the seconds on battery measured for it.
pub open spec fn after_cycles(
    config: ShutdownConfigView,
    state: MonitorStateView,
    cycles: Seq<(UpsStatusView, Instant, u64)>,
) -> MonitorStateView
    decreases cycles.len(),
{
    if cycles.len() == 0 {
        state
    } else {
        cycle_of(
            config,
            after_cycles(config, state, cycles.drop_last()),
            cycles.last().0,
            cycles.last().1,
            cycles.last().2,
        ).0
    }
}

/// The number of cycles of a run in which a trigger fired.
pub open spec fn shutdowns_in(
    config: ShutdownConfigView,
    state: MonitorStateView,
    cycles: Seq<(UpsStatusView, Instant, u64)>,
) -> nat
    decreases cycles.len(),
{
    if cycles.len() == 0 {
        0
    } else {
        let before = after_cycles(config, state, cycles.drop_last());
        let fired = cycle_of(
            config,
            before,
            cycles.last().0,
            cycles.last().1,
            cycles.last().2,
        ).1 is Some;
        shutdowns_in(config, state, cycles.drop_last()) + if fired {
            1nat
        } else {
            0nat
        }
    }
}

/// Over any run of cycles a shutdown is decided at most once, and never
/// where one was scheduled before the run. The flag is set after the run
/// exactly if it was set before or a trigger fired during the run: it is
/// never reset.
pub proof fn lemma_shutdown_at_most_once(
    config: ShutdownConfigView,
    state: MonitorStateView,
    cycles: Seq<(UpsStatusView, Instant, u64)>,
)
    ensures
        shutdowns_in(config, state, cycles) <= 1,
        state.shutdown_scheduled ==> shutdowns_in(config, state, cycles) == 0,
        after_cycles(config, state, cycles).shutdown_scheduled == (state.shutdown_scheduled
            || shutdowns_in(config, state, cycles) == 1),
    decreases cycles.len(),
{
    if cycles.len() > 0 {
        lemma_shutdown_at_most_once(config, state, cycles.drop_last());
    }
}

// ---------------------------------------------------------------------------
// The monitor
// ---------------------------------------------------------------------------

/// What one poll cycle found and decided.
#[derive(Debug)]
pub struct CycleReport {
    /// The reading, handed back for publication.
    pub status: UpsStatus,
    /// Seconds on battery before this reading; `None` if the device was on
    /// line power until now.
    pub on_battery_duration: Option<u64>,
    /// What the reading changed about the power source.
    pub change: PowerChange,
    /// Seconds left until the time trigger fires, where a warning is due.
    /// It is due whether or not another trigger fires in the same cycle.
    pub notice: Option<u64>,
    /// The trigger that fired, if one did.
    pub trigger: Option<ShutdownTrigger>,
    /// What to carry out now; present exactly when a trigger fired.
    pub shutdown: Option<ShutdownPlan>,
}

/// What the polling loop does after a cycle.
#[derive(Clone, Copy, Debug, PartialEq, Eq, Structural)]
pub enum NextStep {
    /// Wait this many seconds, then poll again.
    Sleep(u64),
    /// A shutdown was carried out: leave the loop.
    Stop,
}

/// The configuration, the device settings taken from it, and the state.
pub struct UpsMonitor {
    config: Config,
    client: UpsClient,
    state: MonitorState,
}

/// What a monitor holds.
pub struct UpsMonitorView {
    pub config: ConfigView,
    pub client: UpsClientView,
    pub state: MonitorStateView,
}

impl View for UpsMonitor {
    type V = UpsMonitorView;

    closed spec fn view(&self) -> UpsMonitorView {
        UpsMonitorView { config: self.config@, client: self.client@, state: self.state@ }
    }
}

/// The client that a device section of the configuration asks for.
pub open spec fn client_for(ups: UpsConfigView) -> UpsClientView {
    UpsClientView {
        host: ups.host,
        port: ups.port,
        name: ups.name,
        username: ups.username,
        password: ups.password,
    }
}

/// The step that follows a cycle: stop once a shutdown is scheduled, else
/// sleep for the poll interval.
pub open spec fn next_step_of(monitor: UpsMonitorView) -> NextStep {
    if monitor.state.shutdown_scheduled {
        NextStep::Stop
    } else {
        NextStep::Sleep(monitor.config.poll_interval)
    }
}

impl UpsMonitor {
    /// A monitor in its initial state: on line power, nothing scheduled.
    pub fn new(config: Config) -> (monitor: Self)
        ensures
            monitor@ == (UpsMonitorView {
                config: config@,
                client: client_for(config@.ups),
                state: initial_state(),
            }),
    {
        let client = UpsClient::new(
            config.ups.host.clone(),
            config.ups.port,
            config.ups.name.clone(),
            crate::text::clone_optional(&config.ups.username),
            crate::text::clone_optional(&config.ups.password),
        );
        UpsMonitor { config, client, state: MonitorState::new() }
    }

    /// The configuration.
    pub fn config(&self) -> (config: &Config)
        ensures
            config@ == self@.config,
    {
        &self.config
    }

    /// The device settings.
    pub fn client(&self) -> (client: &UpsClient)
        ensures
            client@ == self@.client,
    {
        &self.client
    }

    /// The state.
    pub fn state(&self) -> (state: &MonitorState)
        ensures
            state@ == self@.state,
    {
        &self.state
    }

    /// What the polling loop does next.
    pub fn next_step(&self) -> (step: NextStep)
        ensures
            step == next_step_of(self@),
    {
        if self.state.shutdown_scheduled {
            NextStep::Stop
        } else {
            NextStep::Sleep(self.config.monitoring.poll_interval)
        }
    }

    /// Takes in a reading, stamped with the monotonic clock's time. Whatever
    /// the clock says, the time of going on battery is recorded exactly when
    /// the reading is on battery, and kept while the device stays there.
    pub fn update_battery_state(&mut self, status: &UpsStatus) -> (change: PowerChange)
        ensures
            final(self)@.config == old(self)@.config,
            final(self)@.client == old(self)@.client,
            final(self)@.state.shutdown_scheduled == old(self)@.state.shutdown_scheduled,
            final(self)@.state.on_battery_since is Some == status@.on_battery,
            status@.on_battery && old(self)@.state.on_battery_since is Some
                ==> final(self)@.state.on_battery_since == old(self)@.state.on_battery_since,
            change == power_change(old(self)@.state.on_battery_since is Some, status@.on_battery),
    {
        let now = Instant::now();
        self.state.observe(status.on_battery, now)
    }

    /// Evaluates the shutdown triggers for a reading, with the time on
    /// battery measured now. Whatever the clock says: nothing fires unless
    /// shutdown is enabled, none is scheduled and the device is on battery;
    /// a charge or runtime at or below its threshold then fires for
    /// certain; and the result is what `trigger_of` gives for some time on
    /// battery.
    pub fn evaluate_triggers(&self, status: &UpsStatus) -> (trigger: Option<ShutdownTrigger>)
        ensures
            self@.state.on_battery_since is None ==> trigger == trigger_of(
                self@.config.shutdown,
                self@.state.shutdown_scheduled,
                status@,
                None,
            ),
            self@.state.on_battery_since is Some ==> exists|elapsed: u64|
                trigger == #[trigger] trigger_of(
                    self@.config.shutdown,
                    self@.state.shutdown_scheduled,
                    status@,
                    Some(elapsed),
                ),
            trigger is Some ==> self@.config.shutdown.enabled && !self@.state.shutdown_scheduled
                && status@.on_battery,
            trigger_of(
                self@.config.shutdown,
                self@.state.shutdown_scheduled,
                status@,
                None,
            ) is Some ==> trigger is Some,
    {
        let elapsed = match self.state.on_battery_since {
            Some(since) => Some(seconds_since(&since)),
            None => None,
        };
        shutdown_trigger(&self.config.shutdown, self.state.shutdown_scheduled, status, elapsed)
    }

    /// Whether a shutdown is due for this reading, with the time on battery
    /// measured now. Whatever the clock says, the answer is whether
    /// `trigger_of` names a trigger for some time on battery.
    pub fn should_shutdown(&self, status: &UpsStatus) -> (due: bool)
        ensures
            self@.state.on_battery_since is Some ==> exists|elapsed: u64|
                due == (#[trigger] trigger_of(
                    self@.config.shutdown,
                    self@.state.shutdown_scheduled,
                    status@,
                    Some(elapsed),
                ) is Some),
            due ==> self@.config.shutdown.enabled && !self@.state.shutdown_scheduled
                && status@.on_battery,
            trigger_of(
                self@.config.shutdown,
                self@.state.shutdown_scheduled,
                status@,
                None,
            ) is Some ==> due,
            self@.state.on_battery_since is None ==> due == trigger_of(
                self@.config.shutdown,
                self@.state.shutdown_scheduled,
                status@,
                None,
            ) is Some,
    {
        self.evaluate_triggers(status).is_some()
    }

    /// Schedules the shutdown and says what is left to do. The flag is set
    /// before anything else happens, so a second call finds it set, changes
    /// nothing and returns `None`.
    pub fn execute_shutdown(&mut self) -> (plan: Option<ShutdownPlan>)
        ensures
            final(self)@.config == old(self)@.config,
            final(self)@.client == old(self)@.client,
            final(self)@.state.on_battery_since == old(self)@.state.on_battery_since,
            final(self)@.state.shutdown_scheduled,
            old(self)@.state.shutdown_scheduled ==> plan is None,
            !old(self)@.state.shutdown_scheduled ==> plan is Some && plan->0@ == plan_of(
                old(self)@.config.shutdown,
            ),
    {
        if !self.state.schedule_shutdown() {
            return None;
        }
        Some(
            ShutdownPlan {
                grace_period: self.config.shutdown.shutdown_grace_period,
                command: split_command(self.config.shutdown.shutdown_command.as_str()),
            },
        )
    }

    /// One poll cycle. `reading` is what reading the device gave.
    ///
    /// A failed reading aborts the cycle: the error comes back and nothing
    /// changes. A reading is taken in, the triggers are evaluated, and where
    /// one fires the shutdown is scheduled and its plan handed out. The
    /// clocks decide only how long the device has been on battery.
    pub fn monitor_cycle(&mut self, reading: Result<UpsStatus, UpsError>) -> (outcome: Result<
        CycleReport,
        UpsError,
    >)
        ensures
            final(self)@.config == old(self)@.config,
            final(self)@.client == old(self)@.client,
            match reading {
                Err(e) => outcome == Err::<CycleReport, UpsError>(e) && final(self)@ == old(self)@,
                Ok(status) => {
                    &&& outcome is Ok
                    &&& outcome->Ok_0.status@ == status@
                    &&& outcome->Ok_0.on_battery_duration is Some == old(
                        self,
                    )@.state.on_battery_since is Some
                    &&& outcome->Ok_0.change == power_change(
                        old(self)@.state.on_battery_since is Some,
                        status@.on_battery,
                    )
                    &&& final(self)@.state.on_battery_since is Some == status@.on_battery
                    &&& (status@.on_battery && old(self)@.state.on_battery_since is Some
                        ==> final(self)@.state.on_battery_since == old(
                        self,
                    )@.state.on_battery_since)
                    &&& final(self)@.state.shutdown_scheduled == (old(
                        self,
                    )@.state.shutdown_scheduled || outcome->Ok_0.trigger is Some)
                    &&& outcome->Ok_0.shutdown is Some == outcome->Ok_0.trigger is Some
                    &&& (outcome->Ok_0.shutdown is Some ==> outcome->Ok_0.shutdown->0@ == plan_of(
                        old(self)@.config.shutdown,
                    ))
                    &&& (outcome->Ok_0.trigger is Some ==> old(self)@.config.shutdown.enabled
                        && !old(self)@.state.shutdown_scheduled && status@.on_battery)
                    &&& (trigger_of(
                        old(self)@.config.shutdown,
                        old(self)@.state.shutdown_scheduled,
                        status@,
                        None,
                    ) is Some ==> outcome->Ok_0.trigger is Some)
                    &&& (status@.on_battery ==> exists|elapsed: u64|
                        outcome->Ok_0.trigger == #[trigger] trigger_of(
                            old(self)@.config.shutdown,
                            old(self)@.state.shutdown_scheduled,
                            status@,
                            Some(elapsed),
                        ) && outcome->Ok_0.notice == notice_for(
                            old(self)@.config.shutdown,
                            old(self)@.state.shutdown_scheduled,
                            status@,
                            Some(elapsed),
                        ))
                    &&& (!status@.on_battery ==> outcome->Ok_0.notice is None)
                    &&& exists|now: Instant, elapsed: u64|
                        (final(self)@.state, outcome->Ok_0.trigger) == #[trigger] cycle_of(
                            old(self)@.config.shutdown,
                            old(self)@.state,
                            status@,
                            now,
                            elapsed,
                        )
                },
            },
    {
        let status = match reading {
            Ok(status) => status,
            Err(e) => {
                return Err(e);
            },
        };
        let on_battery_duration = match self.state.on_battery_since {
            Some(since) => Some(seconds_since(&since)),
            None => None,
        };
        let now = Instant::now();
        let change = self.state.observe(status.on_battery, now);
        let elapsed = match self.state.on_battery_since {
            Some(since) => Some(seconds_since(&since)),
            None => None,
        };
        let trigger = shutdown_trigger(
            &self.config.shutdown,
            self.state.shutdown_scheduled,
            &status,
            elapsed,
        );
        let notice = match elapsed {
            Some(seconds) => {
                if self.config.shutdown.enabled && !self.state.shutdown_scheduled
                    && status.on_battery {
                    remaining_notice(self.config.shutdown.on_battery_seconds, seconds)
                } else {
                    None
                }
            },
            None => None,
        };
        proof {
            if status@.on_battery {
                assert(trigger == trigger_of(
                    old(self)@.config.shutdown,
                    old(self)@.state.shutdown_scheduled,
                    status@,
                    Some(elapsed->0),
                ));
            }
        }
        let shutdown = if trigger.is_some() {
            self.execute_shutdown()
        } else {
            None
        };
        proof {
            let measured: u64 = match elapsed {
                Some(seconds) => seconds,
                None => 0,
            };
            assert((self@.state, trigger) == cycle_of(
                old(self)@.config.shutdown,
                old(self)@.state,
                status@,
                now,
                measured,
            ));
        }
        Ok(CycleReport { status, on_battery_duration, change, notice, trigger, shutdown })
    }
}

} // verus!

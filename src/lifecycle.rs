//! The lifecycle coordinator: driver readiness, and the ordered shutdown and
//! restart sequences. The coordinator decides the steps and keeps the state;
//! the host performs the outside work of each step.
use crate::bridge::Bridge;
use vstd::prelude::*;

verus! {

/// Grace period between the restart notification and the hard teardown, in
/// milliseconds: the send loop's one chance to flush a restart packet.
pub const RESTART_GRACE_MS: u64 = 100;

/// The front-end window that may be open.
#[derive(Clone, Copy, Debug, PartialEq, Eq)]
pub enum WindowKind {
    /// An embedded window, which has to be closed.
    Embedded,
    /// A page in the user's browser, which is left alone.
    Browser,
}

#[derive(Clone, Copy, Debug, PartialEq, Eq)]
pub enum Phase {
    Running,
    ShuttingDown,
    Stopped,
}

/// What starts a shutdown.
#[derive(Clone, Copy, Debug, PartialEq, Eq)]
pub enum ShutdownTrigger {
    /// Tear the runtimes down at once (the native shutdown request).
    Runtimes,
    /// Restart notification, grace period, teardown, native shutdown.
    Driver,
    /// As `Driver`, then relaunch the driver.
    RestartDriver,
    /// As `Driver`, then run the application update.
    ApplicationUpdate,
}

/// One step of a shutdown sequence.
#[derive(Clone, Copy, Debug, PartialEq, Eq)]
pub enum Step {
    /// Wake every waiter on the restart notification.
    NotifyRestart,
    /// Sleep for `RESTART_GRACE_MS`.
    WaitGrace,
    /// Tell observers that the server is quitting.
    EmitServerQuitting,
    /// Clear the liveness flag.
    ClearLiveness,
    /// Close the front-end window, if one is open.
    CloseWindow,
    /// Stop the task runtime, which ends the session.
    DropRuntime,
    /// Ask the native driver to shut down.
    ShutdownNative,
    /// Relaunch the driver.
    RelaunchDriver,
    /// Launch the application update.
    ApplyUpdate,
}

/// The teardown shared by every trigger.
pub open spec fn runtime_steps() -> Seq<Step> {
    seq![Step::EmitServerQuitting, Step::ClearLiveness, Step::CloseWindow, Step::DropRuntime]
}

/// The steps for a trigger, in the order in which they must run.
pub open spec fn plan_of(t: ShutdownTrigger) -> Seq<Step> {
    let driver = seq![Step::NotifyRestart, Step::WaitGrace] + runtime_steps() + seq![
        Step::ShutdownNative,
    ];
    match t {
        ShutdownTrigger::Runtimes => runtime_steps(),
        ShutdownTrigger::Driver => driver,
        ShutdownTrigger::RestartDriver => driver.push(Step::RelaunchDriver),
        ShutdownTrigger::ApplicationUpdate => driver.push(Step::ApplyUpdate),
    }
}

/// Steps that end or tear down part of the running pipeline.
pub open spec fn is_hard_step(s: Step) -> bool {
    match s {
        Step::NotifyRestart | Step::WaitGrace => false,
        _ => true,
    }
}

/// The steps for a trigger.
pub fn shutdown_plan(t: ShutdownTrigger) -> (r: Vec<Step>)
    ensures
        r@ == plan_of(t),
{
    let mut v: Vec<Step> = Vec::new();
    match t {
        ShutdownTrigger::Runtimes => {},
        _ => {
            v.push(Step::NotifyRestart);
            v.push(Step::WaitGrace);
        },
    }
    v.push(Step::EmitServerQuitting);
    v.push(Step::ClearLiveness);
    v.push(Step::CloseWindow);
    v.push(Step::DropRuntime);
    match t {
        ShutdownTrigger::Runtimes => {},
        ShutdownTrigger::Driver => {
            v.push(Step::ShutdownNative);
        },
        ShutdownTrigger::RestartDriver => {
            v.push(Step::ShutdownNative);
            v.push(Step::RelaunchDriver);
        },
        ShutdownTrigger::ApplicationUpdate => {
            v.push(Step::ShutdownNative);
            v.push(Step::ApplyUpdate);
        },
    }
    assert(v@ =~= plan_of(t));
    v
}

/// What the host does on a driver-ready signal.
#[derive(Clone, Copy, Debug, PartialEq, Eq)]
pub struct ReadyAction {
    /// Configure the default play-area bounds, on a new background thread.
    pub set_chaperone: bool,
    /// Start the handshake loop on a background thread.
    pub start_handshake: bool,
}

/// The process-wide state: the session state that the adapters read, the
/// liveness flag, the restart notification as a level flag, the window and
/// the task runtime.
pub struct Lifecycle {
    pub bridge: Bridge,
    pub phase: Phase,
    pub is_alive: bool,
    pub handshake_started: bool,
    pub restart_signal: bool,
    pub window: Option<WindowKind>,
    pub runtime_active: bool,
}

impl Lifecycle {
    /// The state after one step; only the state that the coordinator keeps
    /// changes, the outside work is the host's.
    pub open spec fn stepped(self, step: Step) -> Lifecycle {
        match step {
            Step::NotifyRestart => Lifecycle { restart_signal: true, ..self },
            Step::EmitServerQuitting => Lifecycle { phase: Phase::ShuttingDown, ..self },
            Step::ClearLiveness => Lifecycle { is_alive: false, ..self },
            Step::CloseWindow => Lifecycle { window: None, ..self },
            Step::DropRuntime => Lifecycle {
                bridge: Bridge { registry: self.bridge.registry.cleared(), ..self.bridge },
                runtime_active: false,
                handshake_started: false,
                phase: Phase::Stopped,
                ..self
            },
            _ => self,
        }
    }

    /// The state after a run of steps, first to last.
    pub open spec fn run(self, steps: Seq<Step>) -> Lifecycle
        decreases steps.len(),
    {
        if steps.len() == 0 {
            self
        } else {
            self.stepped(steps[0]).run(steps.drop_first())
        }
    }

    /// A running process with its runtime and window, not yet driver-ready.
    pub fn new(window: Option<WindowKind>, runtime_active: bool) -> (r: Lifecycle)
        ensures
            r.bridge.registry.is_empty(),
            r.bridge.statistics.is_none(),
            r.phase == Phase::Running,
            !r.is_alive,
            !r.handshake_started,
            !r.restart_signal,
            r.window == window,
            r.runtime_active == runtime_active,
    {
        Lifecycle {
            bridge: Bridge::new(),
            phase: Phase::Running,
            is_alive: false,
            handshake_started: false,
            restart_signal: false,
            window,
            runtime_active,
        }
    }

    /// The action and the state after a driver-ready signal.
    pub open spec fn ready(self, set_default_chap: bool) -> (ReadyAction, Lifecycle) {
        (
            ReadyAction {
                set_chaperone: set_default_chap && !self.handshake_started,
                start_handshake: !self.handshake_started,
            },
            Lifecycle { is_alive: true, handshake_started: true, ..self },
        )
    }

    /// Driver-ready signal: marks the process alive and starts the handshake
    /// loop unless it is already running; the play-area bounds are set only
    /// along with a start.
    pub fn driver_ready_idle(&mut self, set_default_chap: bool) -> (r: ReadyAction)
        ensures
            (r, *final(self)) == old(self).ready(set_default_chap),
    {
        let start = !self.handshake_started;
        self.is_alive = true;
        self.handshake_started = true;
        ReadyAction { set_chaperone: set_default_chap && start, start_handshake: start }
    }

    /// The handshake loop has ended; a later driver-ready signal starts it anew.
    pub fn handshake_finished(&mut self)
        ensures
            *final(self) == (Lifecycle { handshake_started: false, ..*old(self) }),
    {
        self.handshake_started = false;
    }

    /// Reads and clears the restart notification, as a waiter does on waking.
    pub fn take_restart_signal(&mut self) -> (r: bool)
        ensures
            r == old(self).restart_signal,
            *final(self) == (Lifecycle { restart_signal: false, ..*old(self) }),
    {
        let r = self.restart_signal;
        self.restart_signal = false;
        r
    }

    /// Applies one step to the state; returns the window that the host must
    /// close, if the step is `CloseWindow` and an embedded window was open.
    pub fn apply_step(&mut self, step: Step) -> (r: Option<WindowKind>)
        ensures
            *final(self) == old(self).stepped(step),
            r == (if step == Step::CloseWindow && old(self).window == Some(WindowKind::Embedded) {
                Some(WindowKind::Embedded)
            } else {
                None::<WindowKind>
            }),
    {
        match step {
            Step::NotifyRestart => {
                self.restart_signal = true;
                None
            },
            Step::EmitServerQuitting => {
                self.phase = Phase::ShuttingDown;
                None
            },
            Step::ClearLiveness => {
                self.is_alive = false;
                None
            },
            Step::CloseWindow => {
                let w = self.window;
                self.window = None;
                match w {
                    Some(WindowKind::Embedded) => Some(WindowKind::Embedded),
                    _ => None,
                }
            },
            Step::DropRuntime => {
                self.bridge.registry.teardown();
                self.runtime_active = false;
                self.handshake_started = false;
                self.phase = Phase::Stopped;
                None
            },
            _ => None,
        }
    }

    /// Runs the immediate teardown: quitting phase, liveness cleared, window
    /// taken, runtime and session ended. Returns the window the host must
    /// close.
    pub fn shutdown_runtimes(&mut self) -> (r: Option<WindowKind>)
        ensures
            *final(self) == old(self).run(plan_of(ShutdownTrigger::Runtimes)),
            !final(self).is_alive,
            final(self).bridge.registry.is_empty(),
            final(self).bridge.registry.same_logs(&old(self).bridge.registry),
            final(self).bridge.statistics == old(self).bridge.statistics,
            final(self).window.is_none(),
            !final(self).runtime_active,
            final(self).phase == Phase::Stopped,
            r == (if old(self).window == Some(WindowKind::Embedded) {
                Some(WindowKind::Embedded)
            } else {
                None::<WindowKind>
            }),
    {
        let plan = shutdown_plan(ShutdownTrigger::Runtimes);
        let ghost start = *self;
        let mut closed: Option<WindowKind> = None;
        let mut i: usize = 0;
        assert(plan@.subrange(0, plan@.len() as int) =~= plan@);
        while i < plan.len()
            invariant
                plan@ == plan_of(ShutdownTrigger::Runtimes),
                0 <= i <= plan@.len(),
                start.run(plan@) == self.run(plan@.subrange(i as int, plan@.len() as int)),
                self.bridge.registry.same_logs(&start.bridge.registry),
                self.bridge.statistics == start.bridge.statistics,
                i >= 3 ==> self.window.is_none(),
                i >= 4 ==> self.phase == Phase::Stopped && !self.runtime_active,
                i <= 2 ==> self.window == start.window && closed.is_none(),
                i > 2 ==> closed == (if start.window == Some(WindowKind::Embedded) {
                    Some(WindowKind::Embedded)
                } else {
                    None::<WindowKind>
                }),
            decreases plan@.len() - i,
        {
            let ghost before = *self;
            let w = self.apply_step(plan[i]);
            proof {
                let rest = plan@.subrange(i as int, plan@.len() as int);
                assert(rest.drop_first() =~= plan@.subrange(i + 1, plan@.len() as int));
            }
            if w.is_some() {
                closed = w;
            }
            i = i + 1;
        }
        assert(plan@.subrange(plan@.len() as int, plan@.len() as int) =~= Seq::<Step>::empty());
        proof {
            lemma_shutdown_leaves_nothing_alive(start, ShutdownTrigger::Runtimes);
        }
        closed
    }
}

/// What every run of steps does to the liveness flag and the session: no
/// step sets the flag or installs a session.
pub proof fn lemma_run_settles(s: Lifecycle, steps: Seq<Step>)
    ensures
        steps.contains(Step::ClearLiveness) ==> !s.run(steps).is_alive,
        !s.is_alive ==> !s.run(steps).is_alive,
        steps.contains(Step::DropRuntime) ==> s.run(steps).bridge.registry.is_empty(),
        s.bridge.registry.is_empty() ==> s.run(steps).bridge.registry.is_empty(),
    decreases steps.len(),
{
    if steps.len() > 0 {
        let rest = steps.drop_first();
        lemma_run_settles(s.stepped(steps[0]), rest);
        assert forall|x: Step| steps.contains(x) && steps[0] != x implies rest.contains(x) by {
            let k = choose|k: int| 0 <= k < steps.len() && steps[k] == x;
            assert(rest[k - 1] == x);
        }
    }
}

/// After any shutdown sequence has run, the liveness flag is clear and no
/// registry slot holds a sender.
pub proof fn lemma_shutdown_leaves_nothing_alive(s: Lifecycle, t: ShutdownTrigger)
    ensures
        !s.run(plan_of(t)).is_alive,
        s.run(plan_of(t)).bridge.registry.is_empty(),
{
    let p = plan_of(t);
    let off: int = if t == ShutdownTrigger::Runtimes { 0 } else { 2 };
    assert(p[off + 1] == Step::ClearLiveness);
    assert(p[off + 3] == Step::DropRuntime);
    lemma_run_settles(s, p);
}

/// In a restart sequence the restart notification comes first and the grace
/// period second; every step that tears something down comes after both, so
/// a waiter woken by the notification finds the liveness flag still set.
pub proof fn lemma_restart_wakes_before_teardown(s: Lifecycle, t: ShutdownTrigger)
    requires
        t != ShutdownTrigger::Runtimes,
        s.is_alive,
    ensures
        plan_of(t)[0] == Step::NotifyRestart,
        plan_of(t)[1] == Step::WaitGrace,
        forall|i: int| 2 <= i < plan_of(t).len() ==> is_hard_step(#[trigger] plan_of(t)[i]),
        s.stepped(plan_of(t)[0]).restart_signal,
        s.stepped(plan_of(t)[0]).is_alive,
{
}

/// Two driver-ready signals in a row start the handshake loop at most once,
/// and exactly once from a state where it was not running.
pub proof fn lemma_handshake_started_once(s: Lifecycle, first: bool, second: bool)
    ensures
        s.ready(first).0.start_handshake == !s.handshake_started,
        !s.ready(first).1.ready(second).0.start_handshake,
        s.ready(first).1.ready(second).1.is_alive,
{
}

} // verus!

use vstd::prelude::*;

verus! {

/// What the host loop is to do on one of its iterations.
#[derive(Clone, Copy, Debug, PartialEq, Eq, Structural)]
pub enum PumpStep {
    /// Drain the engine's event queue, then ask it to present a frame.
    Tick,
    /// The surface is gone: remove the repeating task.
    Stop,
    /// No pump task is running.
    Idle,
}

/// The repeating host-loop task that drives the engine, and the coalesced wake
/// requests that the engine's wake tokens deliver to it.
#[derive(Clone, Copy, Debug, PartialEq, Eq, Structural)]
pub struct LoopPump {
    pub installed: bool,
    pub stopped: bool,
    /// A wake token was used since the last tick.
    pub wake_pending: bool,
}

/// The pump after a wake request.
pub open spec fn woken(p: LoopPump) -> LoopPump {
    LoopPump { wake_pending: true, ..p }
}

/// The pump after `n` wake requests in a row.
pub open spec fn woken_times(p: LoopPump, n: nat) -> LoopPump
    decreases n,
{
    if n == 0 {
        p
    } else {
        woken(woken_times(p, (n - 1) as nat))
    }
}

/// What one host-loop iteration does, given whether the surface is still alive.
pub open spec fn step_spec(p: LoopPump, surface_alive: bool) -> (LoopPump, PumpStep) {
    if !p.installed || p.stopped {
        (p, PumpStep::Idle)
    } else if !surface_alive {
        (LoopPump { stopped: true, wake_pending: false, ..p }, PumpStep::Stop)
    } else {
        (LoopPump { wake_pending: false, ..p }, PumpStep::Tick)
    }
}

impl LoopPump {
    pub fn new() -> (r: Self)
        ensures
            r == (LoopPump { installed: false, stopped: false, wake_pending: false }),
    {
        LoopPump { installed: false, stopped: false, wake_pending: false }
    }

    /// Installs the repeating task; it is installed once per engine. Returns
    /// whether this call installed it.
    pub fn install(&mut self) -> (r: bool)
        ensures
            r == !old(self).installed,
            *final(self) == (LoopPump { installed: true, ..*old(self) }),
    {
        let fresh = !self.installed;
        self.installed = true;
        fresh
    }

    /// A wake token was used: the next iteration is to run the pump. Requests
    /// before that iteration collapse into one.
    pub fn wake(&mut self)
        ensures
            *final(self) == woken(*old(self)),
    {
        self.wake_pending = true;
    }

    /// One iteration of the host loop. An installed pump ticks on every
    /// iteration while the surface lives and never cancels itself otherwise;
    /// once the surface is gone it stops for good.
    pub fn on_idle(&mut self, surface_alive: bool) -> (r: PumpStep)
        ensures
            (*final(self), r) == step_spec(*old(self), surface_alive),
    {
        if !self.installed || self.stopped {
            PumpStep::Idle
        } else if !surface_alive {
            self.stopped = true;
            self.wake_pending = false;
            PumpStep::Stop
        } else {
            self.wake_pending = false;
            PumpStep::Tick
        }
    }
}

/// After one or more wake requests on a running pump, the next iteration of the
/// host loop ticks once and that one tick answers all of them.
pub proof fn lemma_wakes_coalesce_into_tick(p: LoopPump, n: nat)
    requires
        p.installed,
        !p.stopped,
        n >= 1,
    ensures
        woken_times(p, n).wake_pending,
        step_spec(woken_times(p, n), true).1 == PumpStep::Tick,
        !step_spec(woken_times(p, n), true).0.wake_pending,
        step_spec(step_spec(woken_times(p, n), true).0, true).1 == PumpStep::Tick,
    decreases n,
{
    if n > 1 {
        lemma_wakes_coalesce_into_tick(p, (n - 1) as nat);
    }
    lemma_woken_keeps_running(p, n);
}

proof fn lemma_woken_keeps_running(p: LoopPump, n: nat)
    ensures
        woken_times(p, n).installed == p.installed,
        woken_times(p, n).stopped == p.stopped,
    decreases n,
{
    if n > 0 {
        lemma_woken_keeps_running(p, (n - 1) as nat);
    }
}

/// A stopped pump stays stopped: the surface is never brought back.
pub proof fn lemma_stop_is_final(p: LoopPump, alive: bool)
    requires
        p.installed,
        !p.stopped,
    ensures
        step_spec(step_spec(p, false).0, alive).1 == PumpStep::Idle,
{
}

} // verus!

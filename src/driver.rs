//! The frame driver: one cycle per display tick, in a fixed order (apply
//! input, update, fill audio, present), behind a try-acquire guard so that a
//! tick arriving while another is in progress is dropped rather than queued
//! or waited for. The host performs each action and reports back.
use vstd::prelude::*;

verus! {

/// A try-acquire lock that never waits: a request made while it is held
/// fails at once and the requester skips its work.
pub struct ReentrancyGuard {
    held: bool,
}

impl ReentrancyGuard {
    /// Whether the guard is held.
    pub closed spec fn is_held(&self) -> bool {
        self.held
    }

    /// A guard nobody holds.
    pub fn new() -> (g: ReentrancyGuard)
        ensures
            !g.is_held(),
    {
        ReentrancyGuard { held: false }
    }

    /// Takes the guard if it is free; returns whether it was taken.
    pub fn try_acquire(&mut self) -> (acquired: bool)
        ensures
            acquired == !old(self).is_held(),
            final(self).is_held(),
    {
        if self.held {
            false
        } else {
            self.held = true;
            true
        }
    }

    /// Gives the guard back.
    pub fn release(&mut self)
        ensures
            !final(self).is_held(),
    {
        self.held = false;
    }

    /// Whether the guard is held.
    pub fn held(&self) -> (h: bool)
        ensures
            h == self.is_held(),
    {
        self.held
    }
}

/// How far the current tick has got. Every phase but `Idle` holds the guard.
#[derive(Debug, Clone, Copy, PartialEq, Eq, Structural)]
pub enum TickPhase {
    Idle,
    InputApplied,
    Updated,
    AudioFilled,
    Presented,
}

/// What the host tells the driver.
#[derive(Debug, Clone, Copy, PartialEq, Eq, Structural)]
pub enum DriverEvent {
    /// The display or timer fired, at `now_nanos` on a monotonic clock.
    Tick { now_nanos: u64 },
    /// The host finished the action it was last given.
    StageDone,
}

/// What the driver asks the host to do next.
#[derive(Debug, Clone, Copy, PartialEq, Eq, Structural)]
pub enum DriverAction {
    /// Drop this tick: another is in progress.
    Skip,
    /// Hand the buffered input events to the application.
    ApplyInput,
    /// Run the application's update with the time since the last tick.
    Update { delta_nanos: u64 },
    /// Publish the synthesised samples to the ring.
    FillAudio,
    /// Hand the rendered frame to the presentation layer.
    Present,
    /// Nothing to do until the next tick.
    Rest,
}

/// Time between two readings of a monotonic clock; zero if the later reading
/// is not later.
pub open spec fn elapsed(earlier: u64, later: u64) -> u64 {
    if later >= earlier {
        (later - earlier) as u64
    } else {
        0
    }
}

/// One more on a counter that stops at its largest value.
pub open spec fn bump(n: u64) -> u64 {
    if n < u64::MAX {
        (n + 1) as u64
    } else {
        n
    }
}

/// The phase that follows `phase` when its action is done.
pub open spec fn phase_after(phase: TickPhase) -> TickPhase {
    match phase {
        TickPhase::Idle => TickPhase::Idle,
        TickPhase::InputApplied => TickPhase::Updated,
        TickPhase::Updated => TickPhase::AudioFilled,
        TickPhase::AudioFilled => TickPhase::Presented,
        TickPhase::Presented => TickPhase::Idle,
    }
}

/// The per-tick state machine.
pub struct FrameDriver {
    guard: ReentrancyGuard,
    phase: TickPhase,
    last_tick_nanos: u64,
    delta_nanos: u64,
    dropped: u64,
    completed: u64,
}

impl FrameDriver {
    pub closed spec fn phase(&self) -> TickPhase {
        self.phase
    }

    /// When the last tick that was not dropped began.
    pub closed spec fn last_tick(&self) -> u64 {
        self.last_tick_nanos
    }

    /// The time between the two last ticks that were not dropped.
    pub closed spec fn delta(&self) -> u64 {
        self.delta_nanos
    }

    /// Ticks dropped because one was in progress.
    pub closed spec fn dropped(&self) -> u64 {
        self.dropped
    }

    /// Ticks carried through to the end.
    pub closed spec fn completed(&self) -> u64 {
        self.completed
    }

    /// The guard is held exactly while a tick is in progress.
    pub closed spec fn wf(&self) -> bool {
        self.guard.is_held() == (self.phase != TickPhase::Idle)
    }

    /// Whether a tick is in progress.
    pub open spec fn busy(&self) -> bool {
        self.phase() != TickPhase::Idle
    }

    /// An idle driver whose clock starts at `start_nanos`.
    pub fn new(start_nanos: u64) -> (d: FrameDriver)
        ensures
            d.wf(),
            d.phase() == TickPhase::Idle,
            d.last_tick() == start_nanos,
            d.delta() == 0,
            d.dropped() == 0,
            d.completed() == 0,
    {
        FrameDriver {
            guard: ReentrancyGuard::new(),
            phase: TickPhase::Idle,
            last_tick_nanos: start_nanos,
            delta_nanos: 0,
            dropped: 0,
            completed: 0,
        }
    }

    /// Whether a tick is in progress.
    pub fn is_busy(&self) -> (b: bool)
        requires
            self.wf(),
        ensures
            b == self.busy(),
    {
        self.guard.held()
    }

    pub fn current_phase(&self) -> (p: TickPhase)
        ensures
            p == self.phase(),
    {
        self.phase
    }

    pub fn dropped_ticks(&self) -> (n: u64)
        ensures
            n == self.dropped(),
    {
        self.dropped
    }

    pub fn completed_ticks(&self) -> (n: u64)
        ensures
            n == self.completed(),
    {
        self.completed
    }

    /// Advances the state machine by one event and returns the next action.
    /// A tick is taken only when no tick is in progress; it starts a cycle
    /// that runs apply input, update, fill audio and present, each begun
    /// when the host reports the previous one done. A tick that arrives
    /// during a cycle is dropped and counted. A report of completion with no
    /// cycle running changes nothing.
    pub fn step(&mut self, event: DriverEvent) -> (action: DriverAction)
        requires
            old(self).wf(),
        ensures
            final(self).wf(),
            match event {
                DriverEvent::Tick { now_nanos } => if old(self).busy() {
                    &&& action == DriverAction::Skip
                    &&& final(self).phase() == old(self).phase()
                    &&& final(self).last_tick() == old(self).last_tick()
                    &&& final(self).delta() == old(self).delta()
                    &&& final(self).dropped() == bump(old(self).dropped())
                    &&& final(self).completed() == old(self).completed()
                } else {
                    &&& action == DriverAction::ApplyInput
                    &&& final(self).phase() == TickPhase::InputApplied
                    &&& final(self).last_tick() == now_nanos
                    &&& final(self).delta() == elapsed(old(self).last_tick(), now_nanos)
                    &&& final(self).dropped() == old(self).dropped()
                    &&& final(self).completed() == old(self).completed()
                },
                DriverEvent::StageDone => {
                    &&& final(self).phase() == phase_after(old(self).phase())
                    &&& final(self).last_tick() == old(self).last_tick()
                    &&& final(self).delta() == old(self).delta()
                    &&& final(self).dropped() == old(self).dropped()
                    &&& action == match old(self).phase() {
                        TickPhase::InputApplied => DriverAction::Update {
                            delta_nanos: old(self).delta(),
                        },
                        TickPhase::Updated => DriverAction::FillAudio,
                        TickPhase::AudioFilled => DriverAction::Present,
                        _ => DriverAction::Rest,
                    }
                    &&& final(self).completed() == if old(self).phase() == TickPhase::Presented {
                        bump(old(self).completed())
                    } else {
                        old(self).completed()
                    }
                },
            },
    {
        match event {
            DriverEvent::Tick { now_nanos } => {
                if !self.guard.try_acquire() {
                    if self.dropped < u64::MAX {
                        self.dropped = self.dropped + 1;
                    }
                    return DriverAction::Skip;
                }
                self.delta_nanos = if now_nanos >= self.last_tick_nanos {
                    now_nanos - self.last_tick_nanos
                } else {
                    0
                };
                self.last_tick_nanos = now_nanos;
                self.phase = TickPhase::InputApplied;
                DriverAction::ApplyInput
            },
            DriverEvent::StageDone => match self.phase {
                TickPhase::Idle => DriverAction::Rest,
                TickPhase::InputApplied => {
                    self.phase = TickPhase::Updated;
                    DriverAction::Update { delta_nanos: self.delta_nanos }
                },
                TickPhase::Updated => {
                    self.phase = TickPhase::AudioFilled;
                    DriverAction::FillAudio
                },
                TickPhase::AudioFilled => {
                    self.phase = TickPhase::Presented;
                    DriverAction::Present
                },
                TickPhase::Presented => {
                    self.phase = TickPhase::Idle;
                    self.guard.release();
                    if self.completed < u64::MAX {
                        self.completed = self.completed + 1;
                    }
                    DriverAction::Rest
                },
            },
        }
    }
}

} // verus!

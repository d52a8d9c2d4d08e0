//! The tick pipeline and its scheduler: three steps run in a fixed order on
//! every tick, then a fixed sleep, forever, until a step fails or the
//! scheduler is cancelled.
use vstd::prelude::*;
use vstd::string::StringExecFns;

verus! {

/// Time between the end of one tick and the start of the next.
pub const TICK_INTERVAL_MS: u64 = 1000;

/// The rectangle that collision resolution keeps entities inside.
#[derive(Clone, Copy, Debug, PartialEq, Eq, Structural)]
pub struct CollisionBounds {
    pub xmin: i64,
    pub xmax: i64,
    pub ymin: i64,
    pub ymax: i64,
}

impl CollisionBounds {
    pub open spec fn wf(self) -> bool {
        self.xmin <= self.xmax && self.ymin <= self.ymax
    }

    /// The bound the simulation runs with: `x` in `[-100, 100]`, `y` in
    /// `[-50, 50]`.
    pub fn standard() -> (r: CollisionBounds)
        ensures
            r.wf(),
            r.xmin == -100 && r.xmax == 100 && r.ymin == -50 && r.ymax == 50,
    {
        CollisionBounds { xmin: -100, xmax: 100, ymin: -50, ymax: 50 }
    }

    /// The bound as the positional parameters of the collision script:
    /// `xmin, xmax, ymin, ymax`.
    pub fn parameters(&self) -> (r: Vec<i64>)
        ensures
            r@ == seq![self.xmin, self.xmax, self.ymin, self.ymax],
    {
        let mut r: Vec<i64> = Vec::new();
        r.push(self.xmin);
        r.push(self.xmax);
        r.push(self.ymin);
        r.push(self.ymax);
        proof {
            assert(r@ =~= seq![self.xmin, self.xmax, self.ymin, self.ymax]);
        }
        r
    }
}

/// A transformation step of the tick pipeline.
#[derive(Clone, Copy, Debug, PartialEq, Eq, Structural)]
pub enum Step {
    /// Advances each entity's position by its velocity.
    Integrate,
    /// Reflects entities that left the collision bound.
    Collide,
    /// Reads the joined velocity and position view for inspection.
    Project,
}

/// The name of the script that a step runs.
pub open spec fn script_name_spec(s: Step) -> Seq<char> {
    match s {
        Step::Integrate => "position_integrator"@,
        Step::Collide => "ball_collision"@,
        Step::Project => "velocity_position_debugger"@,
    }
}

/// The positional parameters a step's script is run with.
pub open spec fn parameters_spec(s: Step) -> Seq<i64> {
    match s {
        Step::Collide => seq![-100i64, 100i64, -50i64, 50i64],
        _ => Seq::empty(),
    }
}

impl Step {
    /// The name of this step's script.
    pub fn script_name(&self) -> (r: String)
        ensures
            r@ == script_name_spec(*self),
    {
        match self {
            Step::Integrate => String::from_str("position_integrator"),
            Step::Collide => String::from_str("ball_collision"),
            Step::Project => String::from_str("velocity_position_debugger"),
        }
    }

    /// The positional parameters of this step's script: the collision bound
    /// for collision resolution, none for the other steps.
    pub fn parameters(&self) -> (r: Vec<i64>)
        ensures
            r@ == parameters_spec(*self),
    {
        match self {
            Step::Collide => CollisionBounds::standard().parameters(),
            _ => Vec::new(),
        }
    }

    /// Whether the step only reads the store.
    pub fn is_read_only(&self) -> (r: bool)
        ensures
            r == (*self == Step::Project),
    {
        matches!(self, Step::Project)
    }
}

/// The step whose execution failed, kept by a halted scheduler.
#[derive(Clone, Copy, Debug, PartialEq, Eq, Structural)]
pub struct StepFailure {
    pub step: Step,
}

/// Where the scheduler stands.
#[derive(Clone, Copy, Debug, PartialEq, Eq, Structural)]
pub enum SchedulerState {
    /// Waiting for this step of the current tick to finish.
    Running(Step),
    /// Waiting out the interval between two ticks.
    Sleeping,
    /// A step failed; the simulation makes no further progress.
    Halted(StepFailure),
    /// Stopped on request.
    Cancelled,
}

/// What happened at the scheduler's last suspension point.
#[derive(Clone, Copy, Debug, PartialEq, Eq, Structural)]
pub enum TickEvent {
    StepDone,
    StepFailed,
    Woke,
    Cancel,
}

/// What the caller does next.
#[derive(Clone, Copy, Debug, PartialEq, Eq, Structural)]
pub enum TickAction {
    /// Take a pooled connection, run the step's script on it and give the
    /// connection back.
    Run(Step),
    /// Sleep this many milliseconds.
    Sleep(u64),
    /// Stop ticking.
    Stop,
}

/// The state after `s` on the event `ev`. A step failure halts the
/// scheduler for good, keeping the failed step; a cancellation at any
/// suspension point stops it; an event that the state does not wait for
/// changes nothing.
pub open spec fn next_state(s: SchedulerState, ev: TickEvent) -> SchedulerState {
    match s {
        SchedulerState::Running(step) => match ev {
            TickEvent::StepDone => match step {
                Step::Integrate => SchedulerState::Running(Step::Collide),
                Step::Collide => SchedulerState::Running(Step::Project),
                Step::Project => SchedulerState::Sleeping,
            },
            TickEvent::StepFailed => SchedulerState::Halted(StepFailure { step }),
            TickEvent::Cancel => SchedulerState::Cancelled,
            TickEvent::Woke => s,
        },
        SchedulerState::Sleeping => match ev {
            TickEvent::Woke => SchedulerState::Running(Step::Integrate),
            TickEvent::Cancel => SchedulerState::Cancelled,
            _ => s,
        },
        _ => s,
    }
}

/// The action that the state `s` asks for.
pub open spec fn tick_action_spec(s: SchedulerState) -> TickAction {
    match s {
        SchedulerState::Running(step) => TickAction::Run(step),
        SchedulerState::Sleeping => TickAction::Sleep(TICK_INTERVAL_MS),
        _ => TickAction::Stop,
    }
}

/// The position of a live state within a tick.
pub open spec fn stage(s: SchedulerState) -> int {
    match s {
        SchedulerState::Running(Step::Integrate) => 0,
        SchedulerState::Running(Step::Collide) => 1,
        SchedulerState::Running(Step::Project) => 2,
        _ => 3,
    }
}

/// Whether the scheduler has stopped for good.
pub open spec fn stopped(s: SchedulerState) -> bool {
    s is Halted || s is Cancelled
}

/// The tick scheduler.
pub struct Scheduler {
    pub state: SchedulerState,
}

impl Scheduler {
    /// A scheduler about to run the first tick's first step.
    pub fn new() -> (r: Scheduler)
        ensures
            r.state == SchedulerState::Running(Step::Integrate),
    {
        Scheduler { state: SchedulerState::Running(Step::Integrate) }
    }

    /// The action that the current state asks for.
    pub fn current_action(&self) -> (a: TickAction)
        ensures
            a == tick_action_spec(self.state),
    {
        match self.state {
            SchedulerState::Running(step) => TickAction::Run(step),
            SchedulerState::Sleeping => TickAction::Sleep(TICK_INTERVAL_MS),
            _ => TickAction::Stop,
        }
    }

    /// Takes what happened at the last suspension point and returns the next
    /// action.
    pub fn step(&mut self, ev: TickEvent) -> (a: TickAction)
        ensures
            final(self).state == next_state(old(self).state, ev),
            a == tick_action_spec(final(self).state),
    {
        let next = match self.state {
            SchedulerState::Running(step) => match ev {
                TickEvent::StepDone => match step {
                    Step::Integrate => SchedulerState::Running(Step::Collide),
                    Step::Collide => SchedulerState::Running(Step::Project),
                    Step::Project => SchedulerState::Sleeping,
                },
                TickEvent::StepFailed => SchedulerState::Halted(StepFailure { step }),
                TickEvent::Cancel => SchedulerState::Cancelled,
                TickEvent::Woke => self.state,
            },
            SchedulerState::Sleeping => match ev {
                TickEvent::Woke => SchedulerState::Running(Step::Integrate),
                TickEvent::Cancel => SchedulerState::Cancelled,
                _ => self.state,
            },
            _ => self.state,
        };
        self.state = next;
        self.current_action()
    }
}

/// The pipeline order: every change of state either moves to the next stage
/// of the tick (integration, then collision, then projection, then the sleep,
/// then the next tick's integration) or stops the scheduler for good.
pub proof fn lemma_pipeline_order(s: SchedulerState, ev: TickEvent)
    ensures
        next_state(s, ev) != s ==> {
            ||| stopped(next_state(s, ev))
            ||| stage(next_state(s, ev)) == (stage(s) + 1) % 4
        },
        stopped(s) ==> next_state(s, ev) == s,
{
}

/// The state after `n` events, each the one its state waited for, from a new
/// scheduler.
pub open spec fn steady_state(n: nat) -> SchedulerState
    decreases n,
{
    if n == 0 {
        SchedulerState::Running(Step::Integrate)
    } else {
        let s = steady_state((n - 1) as nat);
        next_state(s, if s is Sleeping { TickEvent::Woke } else { TickEvent::StepDone })
    }
}

/// In steady operation the steps repeat with period four: after `n`
/// successful events the scheduler is at stage `n % 4`, so each tick runs
/// integration, collision and projection in that order before the next tick
/// begins.
pub proof fn lemma_steady_cycle(n: nat)
    ensures
        !stopped(steady_state(n)),
        stage(steady_state(n)) == n % 4,
    decreases n,
{
    if n > 0 {
        lemma_steady_cycle((n - 1) as nat);
    }
}

} // verus!

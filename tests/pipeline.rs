use mirror_sim::pipeline::{
    CollisionBounds, Scheduler, SchedulerState, Step, StepFailure, TickAction, TickEvent,
    TICK_INTERVAL_MS,
};
use mirror_sim::pool::PoolSettings;
use mirror_sim::uri::in_memory_database_uri;

#[test]
fn shared_memory_uri() {
    assert_eq!(in_memory_database_uri("db", true), "file:db?mode=memory&cache=shared");
}

#[test]
fn private_memory_uri() {
    assert_eq!(in_memory_database_uri("db", false), "file:db?mode=memory");
}

#[test]
fn ticks_run_steps_in_order() {
    let mut s = Scheduler::new();
    assert_eq!(s.current_action(), TickAction::Run(Step::Integrate));
    for _ in 0..3 {
        assert_eq!(s.step(TickEvent::StepDone), TickAction::Run(Step::Collide));
        assert_eq!(s.step(TickEvent::StepDone), TickAction::Run(Step::Project));
        assert_eq!(s.step(TickEvent::StepDone), TickAction::Sleep(1000));
        assert_eq!(s.step(TickEvent::Woke), TickAction::Run(Step::Integrate));
    }
    assert_eq!(TICK_INTERVAL_MS, 1000);
}

#[test]
fn step_failure_halts_with_cause() {
    let mut s = Scheduler::new();
    s.step(TickEvent::StepDone);
    assert_eq!(s.step(TickEvent::StepFailed), TickAction::Stop);
    assert_eq!(s.state, SchedulerState::Halted(StepFailure { step: Step::Collide }));
    assert_eq!(s.step(TickEvent::Woke), TickAction::Stop);
    assert_eq!(s.step(TickEvent::StepDone), TickAction::Stop);
}

#[test]
fn cancel_while_sleeping() {
    let mut s = Scheduler::new();
    s.step(TickEvent::StepDone);
    s.step(TickEvent::StepDone);
    s.step(TickEvent::StepDone);
    assert_eq!(s.step(TickEvent::Cancel), TickAction::Stop);
    assert_eq!(s.state, SchedulerState::Cancelled);
}

#[test]
fn unexpected_event_changes_nothing() {
    let mut s = Scheduler::new();
    assert_eq!(s.step(TickEvent::Woke), TickAction::Run(Step::Integrate));
}

#[test]
fn collision_parameters() {
    assert_eq!(Step::Collide.parameters(), vec![-100, 100, -50, 50]);
    assert!(Step::Integrate.parameters().is_empty());
    assert!(Step::Project.parameters().is_empty());
    let b = CollisionBounds::standard();
    assert_eq!(b.parameters(), vec![-100, 100, -50, 50]);
}

#[test]
fn script_names() {
    assert_eq!(Step::Integrate.script_name(), "position_integrator");
    assert_eq!(Step::Collide.script_name(), "ball_collision");
    assert_eq!(Step::Project.script_name(), "velocity_position_debugger");
    assert!(Step::Project.is_read_only());
    assert!(!Step::Integrate.is_read_only());
}

#[test]
fn standard_pool() {
    let p = PoolSettings::standard();
    assert_eq!(p.min_connections, 4);
    assert_eq!(p.max_connections, 16);
    assert_eq!(p.idle_timeout_ms, None);
    assert_eq!(p.max_lifetime_ms, None);
    assert!(!p.test_before_acquire);
}

#[test]
fn pool_bounds_checked() {
    assert!(PoolSettings::bounded(5, 4).is_none());
    assert!(PoolSettings::bounded(0, 0).is_none());
    assert_eq!(PoolSettings::bounded(4, 16), Some(PoolSettings::standard()));
    assert_eq!(PoolSettings::bounded(0, 1).unwrap().max_connections, 1);
}

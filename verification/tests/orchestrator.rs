use frame_orchestrator::application::Application;
use frame_orchestrator::application::Event;
use frame_orchestrator::application::LoopAction;
use frame_orchestrator::application::Phase;
use frame_orchestrator::application_builder::ApplicationBuilder;
use frame_orchestrator::application_builder::BuildError;
use frame_orchestrator::schedule::System;
use frame_orchestrator::schedule::SystemOp;
use frame_orchestrator::store::ComponentSlot;

fn incrementer(type_id: u64) -> System {
    System { writes: type_id, op: SystemOp::AddDelta(1) }
}

fn built(systems: &[System]) -> Application {
    let mut builder = ApplicationBuilder::default();
    for s in systems {
        builder.add_system(*s);
    }
    builder.build().expect("conflict-free registrations must build")
}

#[test]
fn empty_schedule_executes_nothing() {
    let mut app = built(&[]);
    let id = app.world.push(vec![ComponentSlot { type_id: 1, value: 42 }]);
    app.schedule.execute(&mut app.world);
    assert_eq!(app.world.get_component(id, 1), Some(42));
    assert_eq!(app.schedule.system_count(), 0);
}

#[test]
fn one_system_executes_exactly_once() {
    let mut app = built(&[incrementer(4)]);
    let id = app.world.push(vec![ComponentSlot { type_id: 4, value: 0 }]);
    app.schedule.execute(&mut app.world);
    assert_eq!(app.world.get_component(id, 4), Some(1));
}

#[test]
fn ten_systems_execute_each_exactly_once() {
    let mut systems = Vec::new();
    let mut slots = Vec::new();
    for t in 0u64..10 {
        systems.push(System { writes: t, op: SystemOp::AddDelta(t as i64 + 1) });
        slots.push(ComponentSlot { type_id: t, value: 0 });
    }
    let mut app = built(&systems);
    assert_eq!(app.schedule.system_count(), 10);
    let id = app.world.push(slots);
    app.schedule.execute(&mut app.world);
    for t in 0u64..10 {
        assert_eq!(app.world.get_component(id, t), Some(t as i64 + 1));
    }
    app.schedule.execute(&mut app.world);
    for t in 0u64..10 {
        assert_eq!(app.world.get_component(id, t), Some(2 * (t as i64 + 1)));
    }
}

#[test]
fn non_conflicting_systems_commute() {
    let a = System { writes: 1, op: SystemOp::AddDelta(5) };
    let b = System { writes: 2, op: SystemOp::SetValue(9) };
    let slots = vec![
        ComponentSlot { type_id: 1, value: 10 },
        ComponentSlot { type_id: 2, value: 0 },
    ];
    let mut first = built(&[a, b]);
    let mut second = built(&[b, a]);
    let id1 = first.world.push(slots.clone());
    let id2 = second.world.push(slots);
    first.schedule.execute(&mut first.world);
    second.schedule.execute(&mut second.world);
    for t in [1u64, 2] {
        assert_eq!(first.world.get_component(id1, t), second.world.get_component(id2, t));
    }
    assert_eq!(first.world.get_component(id1, 1), Some(15));
    assert_eq!(first.world.get_component(id1, 2), Some(9));
}

#[test]
fn five_redraws_increment_component_to_five() {
    let mut app = built(&[incrementer(7)]);
    let id = app.world.push(vec![ComponentSlot { type_id: 7, value: 0 }]);
    app.setup();
    assert_eq!(app.phase, Phase::Ready);
    for _ in 0..5 {
        let outcome = app.handle_event(Event::RedrawRequested);
        assert!(outcome.run_render);
        assert!(matches!(outcome.loop_action, Some(LoopAction::ContinuePoll)));
        assert!(!outcome.request_redraw);
    }
    assert_eq!(app.world.get_component(id, 7), Some(5));
}

#[test]
fn close_terminates_and_stops_frames() {
    let mut app = built(&[incrementer(3)]);
    let id = app.world.push(vec![ComponentSlot { type_id: 3, value: 0 }]);
    app.setup();
    let outcome = app.handle_event(Event::RedrawRequested);
    assert!(outcome.run_render);
    let outcome = app.handle_event(Event::CloseRequested);
    assert!(matches!(outcome.loop_action, Some(LoopAction::Exit)));
    assert_eq!(app.phase, Phase::Terminated);
    for _ in 0..3 {
        let outcome = app.handle_event(Event::RedrawRequested);
        assert!(!outcome.run_render);
        assert!(outcome.loop_action.is_none());
        assert!(!outcome.request_redraw);
    }
    assert_eq!(app.phase, Phase::Terminated);
    assert_eq!(app.world.get_component(id, 3), Some(1));
}

#[test]
fn write_conflict_refuses_build() {
    let mut builder = ApplicationBuilder::default();
    builder.add_system(System { writes: 3, op: SystemOp::AddDelta(1) });
    builder.add_system(System { writes: 3, op: SystemOp::SetValue(2) });
    let refused = builder.build();
    assert!(matches!(refused, Err(BuildError::ScheduleConflict(3))));
    let again = builder.build();
    assert!(matches!(again, Err(BuildError::ScheduleConflict(3))));
}

#[test]
fn builder_is_single_use() {
    let mut builder = ApplicationBuilder::default();
    builder.add_system(incrementer(1));
    assert!(builder.build().is_ok());
    assert!(matches!(builder.build(), Err(BuildError::AlreadyBuilt)));
}

#[test]
fn pacing_tick_advances_reference_and_requests_redraw() {
    let mut app = built(&[]);
    app.setup();
    let data = app.data.expect("session state exists after setup");
    assert_eq!(data.frame_start_nanos, 0);
    let outcome = app.handle_event(Event::FramePacingTick);
    assert!(outcome.request_redraw);
    assert!(!outcome.run_render);
    assert!(outcome.loop_action.is_none());
    let data = app.data.expect("session state survives ticks");
    assert_eq!(outcome.ui_delta_nanos, Some(data.frame_start_nanos));
}

#[test]
fn record_tick_reports_exact_nonnegative_delta() {
    let mut app = built(&[]);
    app.setup();
    let mut data = app.data.expect("session state exists after setup");
    assert_eq!(data.record_tick(100), 100);
    assert_eq!(data.frame_start_nanos, 100);
    assert_eq!(data.record_tick(250), 150);
    assert_eq!(data.record_tick(40), 0);
    assert_eq!(data.frame_start_nanos, 40);
}

#[test]
fn events_before_setup_have_no_effect() {
    let mut app = built(&[incrementer(2)]);
    let id = app.world.push(vec![ComponentSlot { type_id: 2, value: 11 }]);
    for event in [Event::RedrawRequested, Event::FramePacingTick, Event::CloseRequested, Event::Other]
    {
        let outcome = app.handle_event(event);
        assert!(!outcome.run_render);
        assert!(!outcome.request_redraw);
        assert!(outcome.loop_action.is_none());
        assert!(outcome.ui_delta_nanos.is_none());
    }
    assert_eq!(app.phase, Phase::Uninitialized);
    assert_eq!(app.world.get_component(id, 2), Some(11));
}

#[test]
fn other_events_are_ignored_when_ready() {
    let mut app = built(&[incrementer(2)]);
    let id = app.world.push(vec![ComponentSlot { type_id: 2, value: 11 }]);
    app.setup();
    let outcome = app.handle_event(Event::Other);
    assert!(!outcome.run_render);
    assert!(!outcome.request_redraw);
    assert!(outcome.loop_action.is_none());
    assert_eq!(app.phase, Phase::Ready);
    assert_eq!(app.world.get_component(id, 2), Some(11));
}

#[test]
fn entities_get_fresh_ids_and_can_be_destroyed() {
    let mut app = built(&[]);
    let first = app.world.push(vec![ComponentSlot { type_id: 1, value: 1 }]);
    let second = app.world.push(vec![ComponentSlot { type_id: 1, value: 2 }]);
    assert_ne!(first, second);
    assert_eq!(app.world.entity_count(), 2);
    assert!(app.world.destroy(first));
    assert_eq!(app.world.entity_count(), 1);
    assert_eq!(app.world.get_component(first, 1), None);
    assert_eq!(app.world.get_component(second, 1), Some(2));
    assert!(!app.world.destroy(first));
    let third = app.world.push(vec![]);
    assert_ne!(third, second);
    assert_ne!(third, first);
}

#[test]
fn additions_saturate_at_the_value_range() {
    let mut app = built(&[
        System { writes: 1, op: SystemOp::AddDelta(i64::MAX) },
        System { writes: 2, op: SystemOp::AddDelta(-3) },
    ]);
    let id = app.world.push(vec![
        ComponentSlot { type_id: 1, value: 5 },
        ComponentSlot { type_id: 2, value: i64::MIN },
    ]);
    app.schedule.execute(&mut app.world);
    assert_eq!(app.world.get_component(id, 1), Some(i64::MAX));
    assert_eq!(app.world.get_component(id, 2), Some(i64::MIN));
}

#[test]
fn set_value_overwrites_only_its_type() {
    let mut app = built(&[System { writes: 9, op: SystemOp::SetValue(-4) }]);
    let id = app.world.push(vec![
        ComponentSlot { type_id: 9, value: 100 },
        ComponentSlot { type_id: 10, value: 100 },
    ]);
    app.schedule.execute(&mut app.world);
    assert_eq!(app.world.get_component(id, 9), Some(-4));
    assert_eq!(app.world.get_component(id, 10), Some(100));
    assert_eq!(app.world.get_component(id, 11), None);
}

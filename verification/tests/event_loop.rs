use ax5043::event_loop::{
    timer_plan, Action, Event, EventLoop, Phase, TimerPlan, TOKEN_INTERRUPT, TOKEN_TERMINATE,
    TOKEN_TIMER,
};

fn run(state: &mut EventLoop, events: &[Event]) -> Vec<Action> {
    events.iter().map(|e| state.step(*e)).collect()
}

#[test]
fn tokens_stand_for_events() {
    assert_eq!(TOKEN_TERMINATE, 3);
    assert_eq!(TOKEN_INTERRUPT, 4);
    assert_eq!(TOKEN_TIMER, 5);
    assert_eq!(Event::from_token(3), Some(Event::Terminate));
    assert_eq!(Event::from_token(4), Some(Event::Interrupt));
    assert_eq!(Event::from_token(5), Some(Event::Timer));
    assert_eq!(Event::from_token(0), None);
    assert_eq!(Event::from_token(6), None);
    assert_eq!(Event::from_level(true), Event::LineHigh);
    assert_eq!(Event::from_level(false), Event::LineLow);
}

#[test]
fn timer_runs_only_for_a_listener() {
    assert_eq!(timer_plan(true), TimerPlan { initial_ms: 1000, interval_ms: 25 });
    assert_eq!(timer_plan(false), TimerPlan { initial_ms: 0, interval_ms: 0 });
}

#[test]
fn interrupt_drains_until_the_line_is_low() {
    let mut state = EventLoop::new(false);
    let actions = run(
        &mut state,
        &[Event::Interrupt, Event::LineHigh, Event::LineHigh, Event::LineHigh, Event::LineLow],
    );
    assert_eq!(
        actions,
        vec![
            Action::Acknowledge,
            Action::ReadFifo,
            Action::ReadFifo,
            Action::ReadFifo,
            Action::Wait
        ]
    );
    assert_eq!(state, EventLoop::new(false));
}

#[test]
fn edge_without_data_is_acknowledged_and_done() {
    let mut state = EventLoop::new(false);
    assert_eq!(run(&mut state, &[Event::Interrupt, Event::LineLow]), vec![
        Action::Acknowledge,
        Action::Wait
    ]);
    assert_eq!(state.phase, Phase::Idle);
}

#[test]
fn timer_reports_status_to_a_listener_only() {
    let mut state = EventLoop::new(true);
    assert_eq!(state.step(Event::Timer), Action::EmitStatus);
    assert_eq!(state, EventLoop::new(true));
    let mut state = EventLoop::new(false);
    assert_eq!(state.step(Event::Timer), Action::Wait);
    assert_eq!(state, EventLoop::new(false));
}

#[test]
fn termination_while_idle_shuts_down_at_once() {
    let mut state = EventLoop::new(true);
    assert_eq!(state.step(Event::Terminate), Action::Shutdown);
    assert_eq!(state.phase, Phase::Stopped);
}

#[test]
fn termination_during_a_drain_waits_for_its_end() {
    let mut state = EventLoop::new(false);
    let actions = run(
        &mut state,
        &[
            Event::Interrupt,
            Event::LineHigh,
            Event::Terminate,
            Event::LineHigh,
            Event::LineHigh,
        ],
    );
    assert_eq!(
        actions,
        vec![
            Action::Acknowledge,
            Action::ReadFifo,
            Action::SampleLine,
            Action::ReadFifo,
            Action::ReadFifo
        ]
    );
    assert_eq!(state.phase, Phase::Draining);
    assert!(state.shutdown_pending);
    assert_eq!(state.step(Event::LineLow), Action::Shutdown);
    assert_eq!(state.phase, Phase::Stopped);
}

#[test]
fn no_read_is_lost_to_a_pending_termination() {
    let mut state = EventLoop::new(true);
    state.step(Event::Interrupt);
    state.step(Event::Terminate);
    let mut reads = 0;
    for _ in 0..100 {
        assert_eq!(state.step(Event::LineHigh), Action::ReadFifo);
        reads += 1;
    }
    assert_eq!(reads, 100);
    assert_eq!(state.step(Event::LineLow), Action::Shutdown);
}

#[test]
fn status_that_falls_due_during_a_drain_is_sent_after_it() {
    let mut state = EventLoop::new(true);
    let actions = run(
        &mut state,
        &[Event::Interrupt, Event::Timer, Event::LineHigh, Event::LineLow],
    );
    assert_eq!(
        actions,
        vec![Action::Acknowledge, Action::SampleLine, Action::ReadFifo, Action::EmitStatus]
    );
    assert_eq!(state, EventLoop::new(true));
}

#[test]
fn timer_during_a_drain_without_listener_is_forgotten() {
    let mut state = EventLoop::new(false);
    let actions = run(&mut state, &[Event::Interrupt, Event::Timer, Event::LineLow]);
    assert_eq!(actions, vec![Action::Acknowledge, Action::SampleLine, Action::Wait]);
    assert_eq!(state, EventLoop::new(false));
}

#[test]
fn termination_goes_before_a_status_report() {
    let mut state = EventLoop::new(true);
    let actions = run(
        &mut state,
        &[Event::Interrupt, Event::Timer, Event::Terminate, Event::LineLow],
    );
    assert_eq!(actions[3], Action::Shutdown);
    assert_eq!(state.phase, Phase::Stopped);
}

#[test]
fn second_edge_during_a_drain_is_acknowledged() {
    let mut state = EventLoop::new(false);
    let actions = run(&mut state, &[Event::Interrupt, Event::LineHigh, Event::Interrupt]);
    assert_eq!(actions[2], Action::Acknowledge);
    assert_eq!(state.phase, Phase::Draining);
}

#[test]
fn line_sample_out_of_turn_is_ignored() {
    let mut state = EventLoop::new(false);
    assert_eq!(state.step(Event::LineHigh), Action::Wait);
    assert_eq!(state.step(Event::LineLow), Action::Wait);
    assert_eq!(state, EventLoop::new(false));
}

#[test]
fn stopped_loop_stays_stopped() {
    let mut state = EventLoop::new(true);
    state.step(Event::Terminate);
    for event in [
        Event::Interrupt,
        Event::Timer,
        Event::Terminate,
        Event::LineHigh,
        Event::LineLow,
    ] {
        assert_eq!(state.step(event), Action::Shutdown);
        assert_eq!(state.phase, Phase::Stopped);
    }
}

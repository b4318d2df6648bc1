use eng_on_esc::worker::{worker_step, WorkerAction, WorkerEvent, WorkerState, DEBOUNCE_MS};

fn run(events: &[WorkerEvent]) -> (WorkerState, Vec<WorkerAction>) {
    let mut s = WorkerState::Idle;
    let mut actions = Vec::new();
    for &e in events {
        let (next, a) = worker_step(s, e);
        s = next;
        actions.push(a);
    }
    (s, actions)
}

#[test]
fn debounce_window_is_five_ms() {
    assert_eq!(DEBOUNCE_MS, 5);
}

#[test]
fn single_escape_acts_once() {
    let (s, a) = run(&[WorkerEvent::Signal, WorkerEvent::Timeout]);
    assert_eq!(s, WorkerState::Idle);
    assert_eq!(a, vec![WorkerAction::WaitBriefly, WorkerAction::Act]);
}

#[test]
fn burst_of_escapes_acts_once() {
    let mut events = vec![WorkerEvent::Signal; 6];
    events.push(WorkerEvent::Timeout);
    let (s, a) = run(&events);
    assert_eq!(s, WorkerState::Idle);
    assert_eq!(a.iter().filter(|&&x| x == WorkerAction::Act).count(), 1);
    assert_eq!(*a.last().unwrap(), WorkerAction::Act);
}

#[test]
fn two_bursts_act_twice() {
    let events = [
        WorkerEvent::Signal,
        WorkerEvent::Signal,
        WorkerEvent::Timeout,
        WorkerEvent::Signal,
        WorkerEvent::Timeout,
    ];
    let (_, a) = run(&events);
    assert_eq!(a.iter().filter(|&&x| x == WorkerAction::Act).count(), 2);
}

#[test]
fn closed_channel_stops_after_pending_burst() {
    let (s, a) = run(&[WorkerEvent::Signal, WorkerEvent::Disconnected, WorkerEvent::Disconnected]);
    assert_eq!(s, WorkerState::Idle);
    assert_eq!(
        a,
        vec![WorkerAction::WaitBriefly, WorkerAction::Act, WorkerAction::Stop]
    );
    let (_, a) = run(&[WorkerEvent::Disconnected]);
    assert_eq!(a, vec![WorkerAction::Stop]);
}

use luma::event::Cmd;
use luma::event::KeyCode;
use luma::event::KeyEvent;
use luma::event::KeyEventKind;
use luma::event::Msg;
use luma::harness::run_script;
use luma::harness::ScriptEntry;
use luma::model::LumaModel;
use luma::program::dispatch;
use luma::program::Program;
use luma::program::Status;
use luma::simple::SimpleModel;
use luma::example::ExampleModel;

fn key(code: KeyCode) -> Option<KeyEvent> {
    Some(KeyEvent { code, kind: KeyEventKind::Press })
}

#[test]
fn dispatch_nothing_enqueues_nothing() {
    let mut queue: Vec<Msg> = Vec::new();
    let mut timers: Vec<u64> = Vec::new();
    dispatch(Cmd::Nothing, &mut queue, &mut timers, 5);
    assert_eq!(queue.len(), 0);
    assert_eq!(timers.len(), 0);
}

#[test]
fn dispatch_quit_enqueues_exactly_one_quit() {
    let mut queue: Vec<Msg> = Vec::new();
    let mut timers: Vec<u64> = Vec::new();
    dispatch(Cmd::Quit, &mut queue, &mut timers, 5);
    assert_eq!(queue, vec![Msg::Quit]);
    assert_eq!(timers.len(), 0);
}

#[test]
fn dispatch_schedule_keeps_every_timer() {
    let mut queue: Vec<Msg> = Vec::new();
    let mut timers: Vec<u64> = Vec::new();
    dispatch(Cmd::Tick(100), &mut queue, &mut timers, 50);
    dispatch(Cmd::Tick(100), &mut queue, &mut timers, 50);
    dispatch(Cmd::Tick(25), &mut queue, &mut timers, 60);
    assert_eq!(queue.len(), 0);
    assert_eq!(timers, vec![150, 150, 85]);
}

#[test]
fn dispatch_deadline_saturates() {
    let mut queue: Vec<Msg> = Vec::new();
    let mut timers: Vec<u64> = Vec::new();
    dispatch(Cmd::Tick(u64::MAX), &mut queue, &mut timers, 10);
    assert_eq!(timers, vec![u64::MAX]);
}

#[test]
fn scheduled_tick_fires_once_and_no_earlier() {
    // Scenario: the model schedules a 100 ms timer from init; the tick is
    // seen only once the clock passes 100 ms, and exactly once.
    let mut p = Program::new(SimpleModel::new(), 0);
    p.start();
    assert_eq!(p.timers, vec![100]);
    assert_eq!(p.queue.len(), 0);

    let v = p.step(None, 50);
    // Too early: the timer is still outstanding, nothing was delivered.
    assert_eq!(p.timers, vec![100]);
    assert_eq!(p.queue.len(), 0);
    assert!(v.contains("Counter: 0"));

    p.step(None, 150);
    // The tick fired, was delivered, and the model rescheduled at 150 + 100.
    assert_eq!(p.timers, vec![250]);
    assert_eq!(p.queue.len(), 0);

    p.step(None, 160);
    // No second tick from the consumed timer.
    assert_eq!(p.timers, vec![250]);
    assert_eq!(p.queue.len(), 0);
}

#[test]
fn key_quit_terminates_on_next_drain() {
    let mut p = Program::new(ExampleModel::new(), 0);
    p.start();
    // 'q' makes update return the quit command, which enqueues a Quit message.
    p.step(key(KeyCode::Char('q')), 10);
    assert_eq!(p.queue, vec![Msg::Quit]);
    assert_eq!(p.status, Status::Running);
    // The next iteration drains it and terminates within that iteration.
    // The model answers the Quit message with a quit command, whose own Quit
    // message stays on the queue, never to be drained.
    p.step(None, 20);
    assert_eq!(p.status, Status::Terminated);
    assert_eq!(p.queue, vec![Msg::Quit]);
}

#[test]
fn pending_quit_terminates_same_iteration() {
    // Scenario: a Quit message delivered at any point reaches Terminated
    // within the same iteration, and nothing is delivered afterwards.
    let mut p = Program::new(ExampleModel::new(), 0);
    p.start();
    p.queue.push(Msg::Quit);
    p.step(key(KeyCode::Up), 10);
    assert_eq!(p.status, Status::Terminated);
    // The polled key was not delivered after termination: cursor unchanged.
    assert_eq!(p.model.cursor, 0);
    // A terminated loop is final: a further step changes nothing.
    let before_timers = p.timers.clone();
    p.step(key(KeyCode::Down), 5000);
    assert_eq!(p.status, Status::Terminated);
    assert_eq!(p.model.cursor, 0);
    assert_eq!(p.timers, before_timers);
}

#[test]
fn forced_tick_after_interval() {
    let mut p = Program::new(SimpleModel::new(), 0);
    p.start();
    // Clear the init timer so only the clock path can deliver a tick.
    p.timers.clear();
    p.step(None, 500);
    // Interval not yet exceeded: no tick was delivered, so none rescheduled.
    assert_eq!(p.timers.len(), 0);
    p.step(None, 1500);
    // The forced tick was delivered; the model answered with a new timer.
    assert_eq!(p.timers, vec![1600]);
    assert_eq!(p.last_forced, 1500);
}

#[test]
fn clean_run_leaves_terminal_standard() {
    // Scenario: a full scripted run ends with the terminal in standard mode.
    let script = vec![
        ScriptEntry { key: key(KeyCode::Down), now: 10 },
        ScriptEntry { key: key(KeyCode::Enter), now: 20 },
        ScriptEntry { key: key(KeyCode::Char('q')), now: 30 },
        ScriptEntry { key: None, now: 40 },
    ];
    let (p, term) = run_script(ExampleModel::new(), 0, &script);
    assert_eq!(p.status, Status::Terminated);
    assert!(!term.raw);
    assert!(!term.alternate);
    assert!(!term.mouse);
}

#[test]
fn key_events_are_delivered_synchronously() {
    let mut p = Program::new(SimpleModel::new(), 0);
    p.start();
    let v = p.step(key(KeyCode::Up), 10);
    // The key bypassed the queue: delivered in the same iteration.
    assert!(v.contains("Counter: 1"));
    assert_eq!(p.queue.len(), 0);
}

#[test]
fn update_is_deterministic() {
    // Two equal models receiving the same message end in the same state and
    // return the same command.
    let mut a = SimpleModel::new();
    let mut b = SimpleModel::new();
    let msg = Msg::Key(KeyEvent { code: KeyCode::Char('x'), kind: KeyEventKind::Press });
    let ca = a.update(msg);
    let cb = b.update(msg);
    assert_eq!(ca, cb);
    assert_eq!(a.counter, b.counter);
    assert_eq!(a.input, b.input);
}

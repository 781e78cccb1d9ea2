use luma::event::Cmd;
use luma::event::KeyCode;
use luma::event::KeyEvent;
use luma::event::KeyEventKind;
use luma::event::Msg;
use luma::model::LumaModel;
use luma::simple::SimpleModel;
use luma::example::ExampleModel;

fn press(code: KeyCode) -> Msg {
    Msg::Key(KeyEvent { code, kind: KeyEventKind::Press })
}

#[test]
fn counter_up_up_down_is_one() {
    // Scenario: from zero, Up, Up, Down leaves the counter at one.
    let mut m = SimpleModel::new();
    assert_eq!(m.counter, 0);
    m.update(press(KeyCode::Up));
    m.update(press(KeyCode::Up));
    m.update(press(KeyCode::Down));
    assert_eq!(m.counter, 1);
}

#[test]
fn simple_commands() {
    let mut m = SimpleModel::new();
    assert_eq!(m.init(), Cmd::Tick(100));
    assert_eq!(m.update(press(KeyCode::Char('q'))), Cmd::Quit);
    assert_eq!(m.update(Msg::Tick), Cmd::Tick(100));
    assert_eq!(m.update(Msg::Quit), Cmd::Quit);
    assert_eq!(m.update(press(KeyCode::Up)), Cmd::Nothing);
}

#[test]
fn simple_typing_and_submit() {
    let mut m = SimpleModel::new();
    m.update(press(KeyCode::Char('a')));
    m.update(press(KeyCode::Char('b')));
    assert_eq!(m.input, "ab");
    assert!(m.view().contains("Input: ab"));
    m.update(press(KeyCode::Enter));
    assert_eq!(m.input, "");
}

#[test]
fn simple_view_exact() {
    let mut m = SimpleModel::new();
    assert_eq!(
        m.view(),
        "Nula CLI\nCounter: 0\nInput: \nPress Up/Down to change counter, type to enter Nula commands, Enter to submit, 'q' to quit."
    );
    m.update(press(KeyCode::Down));
    m.update(press(KeyCode::Down));
    assert!(m.view().contains("Counter: -2"));
}

#[test]
fn counter_saturates_at_bounds() {
    let mut m = SimpleModel::new();
    m.counter = i32::MAX;
    m.update(press(KeyCode::Up));
    assert_eq!(m.counter, i32::MAX);
    m.counter = i32::MIN;
    m.update(press(KeyCode::Down));
    assert_eq!(m.counter, i32::MIN);
}

#[test]
fn example_cursor_moves_and_stops() {
    let mut m = ExampleModel::new();
    assert_eq!(m.cursor, 0);
    m.update(press(KeyCode::Up));
    assert_eq!(m.cursor, 0);
    m.update(press(KeyCode::Down));
    assert_eq!(m.cursor, 1);
    m.update(press(KeyCode::Char('j')));
    assert_eq!(m.cursor, 2);
    m.update(press(KeyCode::Down));
    assert_eq!(m.cursor, 2);
    m.update(press(KeyCode::Char('k')));
    assert_eq!(m.cursor, 1);
}

#[test]
fn example_toggle_twice_restores() {
    // Scenario: toggling at one cursor position twice restores that index,
    // and other indices are never touched.
    let mut m = ExampleModel::new();
    m.update(press(KeyCode::Down));
    m.update(press(KeyCode::Enter));
    assert_eq!(m.selected, vec![false, true, false]);
    m.update(press(KeyCode::Enter));
    assert_eq!(m.selected, vec![false, false, false]);
}

#[test]
fn example_space_toggles_too() {
    let mut m = ExampleModel::new();
    m.update(press(KeyCode::Char(' ')));
    assert_eq!(m.selected, vec![true, false, false]);
}

#[test]
fn example_quit_keys() {
    let mut m = ExampleModel::new();
    assert_eq!(m.update(press(KeyCode::Char('q'))), Cmd::Quit);
    assert_eq!(m.update(press(KeyCode::Esc)), Cmd::Quit);
    assert_eq!(m.update(Msg::Quit), Cmd::Quit);
    assert_eq!(m.update(Msg::Tick), Cmd::Tick(100));
}

#[test]
fn example_view_exact() {
    let mut m = ExampleModel::new();
    assert_eq!(
        m.view(),
        "Co kupimy na rynku?\n\n> [ ] Kup marchewki\n  [ ] Kup seler\n  [ ] Kup kohlrabi\n\nNaciśnij q aby wyjść.\n"
    );
    m.update(press(KeyCode::Down));
    m.update(press(KeyCode::Enter));
    assert_eq!(
        m.view(),
        "Co kupimy na rynku?\n\n  [ ] Kup marchewki\n> [x] Kup seler\n  [ ] Kup kohlrabi\n\nNaciśnij q aby wyjść.\n"
    );
}

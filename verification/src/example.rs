//! A selection-list model: a cursor over fixed choices, each one toggleable.

use vstd::prelude::*;
use crate::event::Cmd;
use crate::event::KeyCode;
use crate::event::KeyEvent;
use crate::event::KeyEventKind;
use crate::event::Msg;
use crate::model::LumaModel;

verus! {

/// Milliseconds between the periodic timers this model keeps scheduling.
pub const EXAMPLE_TICK_MS: u64 = 100;

/// A list of choices, a cursor over them, and one selection flag per choice.
#[derive(Debug, Clone)]
pub struct ExampleModel {
    pub choices: Vec<String>,
    pub cursor: usize,
    pub selected: Vec<bool>,
}

/// The mathematical state of an `ExampleModel`.
#[verifier::ext_equal]
pub struct ExampleState {
    pub choices: Seq<Seq<char>>,
    pub cursor: int,
    pub selected: Seq<bool>,
}

/// Moving the cursor one choice up stops at the first choice.
pub open spec fn cursor_up(st: ExampleState) -> ExampleState {
    ExampleState {
        cursor: if st.cursor > 0 {
            st.cursor - 1
        } else {
            st.cursor
        },
        ..st
    }
}

/// Moving the cursor one choice down stops at the last choice.
pub open spec fn cursor_down(st: ExampleState) -> ExampleState {
    ExampleState {
        cursor: if st.cursor + 1 < st.choices.len() {
            st.cursor + 1
        } else {
            st.cursor
        },
        ..st
    }
}

/// Toggling flips the selection flag under the cursor and no other.
pub open spec fn toggled(st: ExampleState) -> ExampleState {
    ExampleState {
        selected: if 0 <= st.cursor < st.selected.len() {
            st.selected.update(st.cursor, !st.selected[st.cursor])
        } else {
            st.selected
        },
        ..st
    }
}

impl ExampleModel {
    /// The market list: three choices, the cursor on the first, none chosen.
    pub fn new() -> (m: ExampleModel)
        ensures
            m.abs().choices == seq!["Kup marchewki"@, "Kup seler"@, "Kup kohlrabi"@],
            m.abs().cursor == 0,
            m.abs().selected == seq![false, false, false],
    {
        let mut choices: Vec<String> = Vec::new();
        choices.push(String::from_str("Kup marchewki"));
        choices.push(String::from_str("Kup seler"));
        choices.push(String::from_str("Kup kohlrabi"));
        let m = ExampleModel { choices, cursor: 0, selected: vec![false, false, false] };
        proof {
            assert(m.abs().choices =~= seq!["Kup marchewki"@, "Kup seler"@, "Kup kohlrabi"@]);
            assert(m.abs().selected =~= seq![false, false, false]);
        }
        m
    }
}

impl LumaModel for ExampleModel {
    type St = ExampleState;

    open spec fn abs(self) -> ExampleState {
        ExampleState {
            choices: self.choices.deep_view(),
            cursor: self.cursor as int,
            selected: self.selected@,
        }
    }

    open spec fn start_of(st: ExampleState) -> (ExampleState, Cmd) {
        (st, Cmd::Tick(EXAMPLE_TICK_MS))
    }

    open spec fn next_of(st: ExampleState, msg: Msg) -> (ExampleState, Cmd) {
        match msg {
            Msg::Key(k) => match k.code {
                KeyCode::Char(c) => if c == 'q' {
                    (st, Cmd::Quit)
                } else if c == 'k' {
                    (cursor_up(st), Cmd::Nothing)
                } else if c == 'j' {
                    (cursor_down(st), Cmd::Nothing)
                } else if c == ' ' {
                    (toggled(st), Cmd::Nothing)
                } else {
                    (st, Cmd::Nothing)
                },
                KeyCode::Esc => (st, Cmd::Quit),
                KeyCode::Up => (cursor_up(st), Cmd::Nothing),
                KeyCode::Down => (cursor_down(st), Cmd::Nothing),
                KeyCode::Enter => (toggled(st), Cmd::Nothing),
                _ => (st, Cmd::Nothing),
            },
            Msg::Tick => (st, Cmd::Tick(EXAMPLE_TICK_MS)),
            Msg::Quit => (st, Cmd::Quit),
        }
    }

    open spec fn render_of(st: ExampleState) -> Seq<char> {
        "Co kupimy na rynku?\n\n"@ + example_lines(st, st.choices.len() as int)
            + "\nNaciśnij q aby wyjść.\n"@
    }

    fn init(&mut self) -> (c: Cmd) {
        Cmd::Tick(EXAMPLE_TICK_MS)
    }

    fn update(&mut self, msg: Msg) -> (c: Cmd) {
        match msg {
            Msg::Key(k) => match k.code {
                KeyCode::Char(ch) => {
                    if ch == 'q' {
                        Cmd::Quit
                    } else if ch == 'k' {
                        self.move_up();
                        Cmd::Nothing
                    } else if ch == 'j' {
                        self.move_down();
                        Cmd::Nothing
                    } else if ch == ' ' {
                        self.toggle();
                        Cmd::Nothing
                    } else {
                        Cmd::Nothing
                    }
                },
                KeyCode::Esc => Cmd::Quit,
                KeyCode::Up => {
                    self.move_up();
                    Cmd::Nothing
                },
                KeyCode::Down => {
                    self.move_down();
                    Cmd::Nothing
                },
                KeyCode::Enter => {
                    self.toggle();
                    Cmd::Nothing
                },
                _ => Cmd::Nothing,
            },
            Msg::Tick => Cmd::Tick(EXAMPLE_TICK_MS),
            Msg::Quit => Cmd::Quit,
        }
    }

    fn view(&self) -> (s: String) {
        let ghost st = self.abs();
        let mut s = String::from_str("Co kupimy na rynku?\n\n");
        let mut i: usize = 0;
        while i < self.choices.len()
            invariant
                i <= self.choices@.len(),
                self.abs() == st,
                s@ == "Co kupimy na rynku?\n\n"@ + example_lines(st, i as int),
            decreases self.choices@.len() - i,
        {
            s.append(if self.cursor == i {
                ">"
            } else {
                " "
            });
            s.append(" [");
            s.append(
                if i < self.selected.len() && self.selected[i] {
                    "x"
                } else {
                    " "
                },
            );
            s.append("] ");
            s.append(self.choices[i].as_str());
            s.append("\n");
            proof {
                assert(s@ =~= "Co kupimy na rynku?\n\n"@ + example_lines(st, i + 1));
            }
            i += 1;
        }
        s.append("\nNaciśnij q aby wyjść.\n");
        proof {
            assert(s@ =~= Self::render_of(st));
        }
        s
    }
}

/// One rendered choice line: the cursor marker, the selection mark in
/// brackets, and the choice text.
pub open spec fn example_line(st: ExampleState, i: int) -> Seq<char> {
    (if st.cursor == i {
        ">"@
    } else {
        " "@
    }) + " ["@ + (if 0 <= i < st.selected.len() && st.selected[i] {
        "x"@
    } else {
        " "@
    }) + "] "@ + st.choices[i] + "\n"@
}

/// The first `n` rendered choice lines, in order.
pub open spec fn example_lines(st: ExampleState, n: int) -> Seq<char>
    decreases n,
{
    if n <= 0 {
        Seq::empty()
    } else {
        example_lines(st, n - 1) + example_line(st, n - 1)
    }
}

impl ExampleModel {
    /// Moves the cursor one choice up, stopping at the first.
    fn move_up(&mut self)
        ensures
            final(self).abs() == cursor_up(old(self).abs()),
    {
        if self.cursor > 0 {
            self.cursor = self.cursor - 1;
        }
        proof {
            assert(self.abs() =~= cursor_up(old(self).abs()));
        }
    }

    /// Moves the cursor one choice down, stopping at the last.
    fn move_down(&mut self)
        ensures
            final(self).abs() == cursor_down(old(self).abs()),
    {
        if self.choices.len() > 0 && self.cursor < self.choices.len() - 1 {
            self.cursor = self.cursor + 1;
        }
        proof {
            assert(self.abs() =~= cursor_down(old(self).abs()));
        }
    }

    /// Flips the selection flag under the cursor.
    fn toggle(&mut self)
        ensures
            final(self).abs() == toggled(old(self).abs()),
    {
        if self.cursor < self.selected.len() {
            let b = self.selected[self.cursor];
            self.selected[self.cursor] = !b;
        }
        proof {
            assert(self.abs() =~= toggled(old(self).abs()));
        }
    }
}

/// Toggling twice at one cursor position restores the whole state: the flag
/// under the cursor returns to its original value, and after the first toggle
/// every other index is already unchanged.
pub proof fn lemma_toggle_twice(st: ExampleState, kind: KeyEventKind)
    ensures
        ({
            let enter = Msg::Key(KeyEvent { code: KeyCode::Enter, kind });
            let once = ExampleModel::next_of(st, enter).0;
            let twice = ExampleModel::next_of(once, enter).0;
            &&& twice == st
            &&& forall|i: int|
                0 <= i < st.selected.len() && i != st.cursor ==> once.selected[i]
                    == st.selected[i]
        }),
{
    let enter = Msg::Key(KeyEvent { code: KeyCode::Enter, kind });
    let once = ExampleModel::next_of(st, enter).0;
    let twice = ExampleModel::next_of(once, enter).0;
    assert(twice.selected =~= st.selected);
    assert(twice =~= st);
}

} // verus!

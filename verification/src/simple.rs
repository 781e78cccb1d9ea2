//! A counter-and-input model: a minimal command-line style application.

use vstd::prelude::*;
use crate::event::Cmd;
use crate::event::KeyCode;
use crate::event::Msg;
use crate::model::LumaModel;
use crate::text::dec_int;
use crate::text::format_i32;
use crate::text::push_char;

verus! {

/// Milliseconds between the periodic timers this model keeps scheduling.
pub const SIMPLE_TICK_MS: u64 = 100;

/// A counter driven by the arrow keys, and a line of typed input.
pub struct SimpleModel {
    pub counter: i32,
    pub input: String,
}

/// The mathematical state of a `SimpleModel`.
#[verifier::ext_equal]
pub struct SimpleState {
    pub counter: int,
    pub input: Seq<char>,
}

/// The state every `SimpleModel` starts in.
pub open spec fn simple_initial() -> SimpleState {
    SimpleState { counter: 0, input: Seq::empty() }
}

impl SimpleModel {
    /// A model with the counter at zero and no input.
    pub fn new() -> (m: SimpleModel)
        ensures
            m.abs() == simple_initial(),
    {
        let m = SimpleModel { counter: 0, input: String::new() };
        proof {
            assert(m.abs() =~= simple_initial());
        }
        m
    }
}

impl LumaModel for SimpleModel {
    type St = SimpleState;

    open spec fn abs(self) -> SimpleState {
        SimpleState { counter: self.counter as int, input: self.input@ }
    }

    open spec fn start_of(st: SimpleState) -> (SimpleState, Cmd) {
        (st, Cmd::Tick(SIMPLE_TICK_MS))
    }

    open spec fn next_of(st: SimpleState, msg: Msg) -> (SimpleState, Cmd) {
        match msg {
            Msg::Key(k) => match k.code {
                KeyCode::Char(c) => if c == 'q' {
                    (st, Cmd::Quit)
                } else {
                    (SimpleState { input: st.input.push(c), ..st }, Cmd::Nothing)
                },
                KeyCode::Up => (
                    SimpleState {
                        counter: if st.counter < i32::MAX {
                            st.counter + 1
                        } else {
                            st.counter
                        },
                        ..st
                    },
                    Cmd::Nothing,
                ),
                KeyCode::Down => (
                    SimpleState {
                        counter: if st.counter > i32::MIN {
                            st.counter - 1
                        } else {
                            st.counter
                        },
                        ..st
                    },
                    Cmd::Nothing,
                ),
                KeyCode::Enter => (SimpleState { input: Seq::empty(), ..st }, Cmd::Nothing),
                _ => (st, Cmd::Nothing),
            },
            Msg::Tick => (st, Cmd::Tick(SIMPLE_TICK_MS)),
            Msg::Quit => (st, Cmd::Quit),
        }
    }

    open spec fn render_of(st: SimpleState) -> Seq<char> {
        "Nula CLI\nCounter: "@ + dec_int(st.counter) + "\nInput: "@ + st.input
            + "\nPress Up/Down to change counter, type to enter Nula commands, Enter to submit, 'q' to quit."@
    }

    fn init(&mut self) -> (c: Cmd) {
        Cmd::Tick(SIMPLE_TICK_MS)
    }

    fn update(&mut self, msg: Msg) -> (c: Cmd) {
        match msg {
            Msg::Key(k) => match k.code {
                KeyCode::Char(ch) => {
                    if ch == 'q' {
                        Cmd::Quit
                    } else {
                        push_char(&mut self.input, ch);
                        proof {
                            assert(self.abs() =~= Self::next_of(old(self).abs(), msg).0);
                        }
                        Cmd::Nothing
                    }
                },
                KeyCode::Up => {
                    if self.counter < i32::MAX {
                        self.counter = self.counter + 1;
                    }
                    Cmd::Nothing
                },
                KeyCode::Down => {
                    if self.counter > i32::MIN {
                        self.counter = self.counter - 1;
                    }
                    Cmd::Nothing
                },
                KeyCode::Enter => {
                    self.input = String::new();
                    proof {
                        assert(self.abs() =~= Self::next_of(old(self).abs(), msg).0);
                    }
                    Cmd::Nothing
                },
                _ => Cmd::Nothing,
            },
            Msg::Tick => Cmd::Tick(SIMPLE_TICK_MS),
            Msg::Quit => Cmd::Quit,
        }
    }

    fn view(&self) -> (s: String) {
        let mut s = String::from_str("Nula CLI\nCounter: ");
        let n = format_i32(self.counter);
        s.append(n.as_str());
        s.append("\nInput: ");
        s.append(self.input.as_str());
        s.append(
            "\nPress Up/Down to change counter, type to enter Nula commands, Enter to submit, 'q' to quit.",
        );
        proof {
            assert(s@ =~= Self::render_of(self.abs()));
        }
        s
    }
}

} // verus!

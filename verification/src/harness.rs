//! A complete run of the event loop over a scripted input sequence.
//!
//! The script stands for what the environment would hand the loop: per
//! iteration, the key event the bounded poll returned (if any) and the clock
//! reading. Running a program over a script exercises the whole lifecycle —
//! terminal acquisition, `init`, the iterations, terminal release — and the
//! contract proves that a clean run always hands the terminal back in
//! standard mode.

use vstd::prelude::*;
use crate::event::KeyEvent;
use crate::event::Msg;
use crate::model::LumaModel;
use crate::program::Program;
use crate::program::ProgramView;
use crate::program::Status;
use crate::terminal::TerminalModes;

verus! {

/// One iteration's worth of environment input: the polled key event, if any,
/// and the clock reading in runtime milliseconds.
#[derive(Clone, Copy, Debug, PartialEq, Eq, Structural)]
pub struct ScriptEntry {
    pub key: Option<KeyEvent>,
    pub now: u64,
}

/// The abstract state a program is in before its first iteration: fresh at
/// clock reading `start_now`.
pub open spec fn boot_view<M: LumaModel>(model: M, start_now: u64) -> ProgramView<M> {
    ProgramView {
        model: model.abs(),
        status: Status::Running,
        queue: Seq::<Msg>::empty(),
        timers: Seq::<u64>::empty(),
        now: start_now,
        last_forced: start_now,
    }
}

/// The abstract state after the first `n` scripted iterations.
pub open spec fn run_upto<M: LumaModel>(
    p: ProgramView<M>,
    script: Seq<ScriptEntry>,
    n: int,
) -> ProgramView<M>
    decreases n,
{
    if n <= 0 {
        p
    } else {
        run_upto(p, script, n - 1).step(script[n - 1].key, script[n - 1].now)
    }
}

/// Runs a model to the end of a script: acquires the terminal modes, calls
/// `init` and dispatches its command, performs one loop iteration per script
/// entry, and releases the terminal modes. Returns the final program state
/// and the terminal mode state left behind, which is always standard.
pub fn run_script<M: LumaModel>(model: M, start_now: u64, script: &Vec<ScriptEntry>) -> (r: (
    Program<M>,
    TerminalModes,
))
    ensures
        r.0@ == run_upto(
            boot_view(model, start_now).started(),
            script@,
            script@.len() as int,
        ),
        r.1.is_standard(),
{
    let mut term = TerminalModes::standard();
    term.acquire();
    let mut p = Program::new(model, start_now);
    p.start();
    let ghost init_view = boot_view(model, start_now).started();
    let mut i: usize = 0;
    while i < script.len()
        invariant
            i <= script@.len(),
            p@ == run_upto(init_view, script@, i as int),
        decreases script@.len() - i,
    {
        let entry = script[i];
        p.step(entry.key, entry.now);
        i += 1;
    }
    term.release();
    (p, term)
}

} // verus!

//! Bookkeeping of the exclusive terminal modes.
//!
//! The runtime acquires raw input, the alternate screen and mouse capture at
//! construction and must release all three on every clean exit. The mode
//! state is kept as an explicit value so that the release guarantee is a
//! proved fact; the process-level mode switches themselves are performed by
//! the driver around the crate, in the same order.

use vstd::prelude::*;

verus! {

/// Which of the three exclusive terminal modes are currently held.
#[derive(Clone, Copy, Debug, PartialEq, Eq, Structural)]
pub struct TerminalModes {
    pub raw: bool,
    pub alternate: bool,
    pub mouse: bool,
}

impl TerminalModes {
    /// Standard mode: cooked input, primary screen, no mouse capture.
    pub open spec fn is_standard(self) -> bool {
        !self.raw && !self.alternate && !self.mouse
    }

    /// The state of the terminal before the runtime touches it.
    pub fn standard() -> (t: TerminalModes)
        ensures
            t.is_standard(),
    {
        TerminalModes { raw: false, alternate: false, mouse: false }
    }

    /// Acquisition at runtime construction: raw input on, alternate screen
    /// on, mouse capture on.
    pub fn acquire(&mut self)
        ensures
            final(self).raw,
            final(self).alternate,
            final(self).mouse,
    {
        self.raw = true;
        self.alternate = true;
        self.mouse = true;
    }

    /// Release on loop exit: every mode is handed back, leaving the terminal
    /// standard whatever was held before.
    pub fn release(&mut self)
        ensures
            final(self).is_standard(),
    {
        self.mouse = false;
        self.alternate = false;
        self.raw = false;
    }
}

} // verus!

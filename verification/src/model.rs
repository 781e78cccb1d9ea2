//! The capability contract between application state and the runtime.

use vstd::prelude::*;
use crate::event::Cmd;
use crate::event::Msg;

verus! {

/// The three-operation contract every application state type implements.
///
/// A model names its mathematical state (`St`) and gives its transitions as
/// specification-level functions of that state, so that updating is
/// deterministic: the successor state and the returned command are functions
/// of the prior state and the delivered message alone. The operations are
/// infallible; application-level failures are encoded into the model state
/// and surfaced through `view`.
pub trait LumaModel: Sized {
    /// The mathematical state of the model.
    type St;

    /// The mathematical state this model value is in.
    spec fn abs(self) -> Self::St;

    /// The mathematical meaning of `init`: successor state and first command.
    spec fn start_of(st: Self::St) -> (Self::St, Cmd);

    /// The mathematical meaning of `update` on one message.
    spec fn next_of(st: Self::St, msg: Msg) -> (Self::St, Cmd);

    /// The mathematical meaning of `view`: the rendered text.
    spec fn render_of(st: Self::St) -> Seq<char>;

    /// Called once, before any message is delivered.
    fn init(&mut self) -> (c: Cmd)
        ensures
            final(self).abs() == Self::start_of(old(self).abs()).0,
            c == Self::start_of(old(self).abs()).1,
    ;

    /// Called once per delivered message; mutates the state in place.
    fn update(&mut self, msg: Msg) -> (c: Cmd)
        ensures
            final(self).abs() == Self::next_of(old(self).abs(), msg).0,
            c == Self::next_of(old(self).abs(), msg).1,
    ;

    /// Pure projection of the state to text; no mutation.
    fn view(&self) -> (s: String)
        ensures
            s@ == Self::render_of(self.abs()),
    ;
}

/// Delivering a message is deterministic: two equal prior states receiving
/// equal messages step to the same successor state and the same command.
pub proof fn lemma_update_deterministic<M: LumaModel>(a: M::St, b: M::St, m1: Msg, m2: Msg)
    requires
        a == b,
        m1 == m2,
    ensures
        M::next_of(a, m1) == M::next_of(b, m2),
{
}

} // verus!

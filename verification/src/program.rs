//! The dispatcher and the cooperative event loop.
//!
//! The runtime is a state machine over a modeled clock: the message queue and
//! the outstanding timers are explicit values, so every step of the loop is a
//! function of the prior state, the polled key event, and the clock reading.
//! A driver around the crate feeds it real key events and real clock
//! readings; the decisions it takes are all proved here.

use vstd::prelude::*;
use crate::event::Cmd;
use crate::event::KeyEvent;
use crate::event::Msg;
use crate::model::LumaModel;

verus! {

/// Milliseconds the clock must advance past the last forced tick before the
/// loop delivers an unconditional `Tick` (independent of any scheduled timer).
pub const FORCED_TICK_INTERVAL_MS: u64 = 1000;

/// The two states of the event loop.
#[derive(Clone, Copy, Debug, PartialEq, Eq, Structural)]
pub enum Status {
    Running,
    Terminated,
}

/// The clock reading, in runtime milliseconds, at which a timer scheduled at
/// `now` for `delay` milliseconds becomes due (saturating at the clock's top).
pub open spec fn tick_deadline(now: u64, delay: u64) -> u64 {
    if now + delay <= u64::MAX {
        (now + delay) as u64
    } else {
        u64::MAX
    }
}

/// What dispatching one command does to the message queue and the timer list:
/// nothing, one `Quit` message enqueued synchronously, or one new independent
/// timer — never a cancellation, never a deduplication.
pub open spec fn spec_dispatch(
    queue: Seq<Msg>,
    timers: Seq<u64>,
    cmd: Cmd,
    now: u64,
) -> (Seq<Msg>, Seq<u64>) {
    match cmd {
        Cmd::Nothing => (queue, timers),
        Cmd::Quit => (queue.push(Msg::Quit), timers),
        Cmd::Tick(d) => (queue, timers.push(tick_deadline(now, d))),
    }
}

/// The timers still outstanding at clock reading `now`, in order.
pub open spec fn pending_of(timers: Seq<u64>, now: u64) -> Seq<u64>
    decreases timers.len(),
{
    if timers.len() == 0 {
        Seq::empty()
    } else {
        let rest = pending_of(timers.drop_last(), now);
        if timers.last() > now {
            rest.push(timers.last())
        } else {
            rest
        }
    }
}

/// How many timers have become due by clock reading `now`.
pub open spec fn fired_count(timers: Seq<u64>, now: u64) -> nat
    decreases timers.len(),
{
    if timers.len() == 0 {
        0
    } else {
        fired_count(timers.drop_last(), now) + if timers.last() <= now {
            1nat
        } else {
            0nat
        }
    }
}

/// The `Tick` messages the due timers enqueue: exactly one per due timer.
pub open spec fn fired_ticks(timers: Seq<u64>, now: u64) -> Seq<Msg> {
    Seq::new(fired_count(timers, now), |i: int| Msg::Tick)
}

/// Translates a command into its effect on the shared queue and timer list:
/// the single point where a command is acted on, exactly once.
pub fn dispatch(cmd: Cmd, queue: &mut Vec<Msg>, timers: &mut Vec<u64>, now: u64)
    ensures
        final(queue)@ == spec_dispatch(old(queue)@, old(timers)@, cmd, now).0,
        final(timers)@ == spec_dispatch(old(queue)@, old(timers)@, cmd, now).1,
{
    match cmd {
        Cmd::Nothing => {},
        Cmd::Quit => {
            queue.push(Msg::Quit);
        },
        Cmd::Tick(d) => {
            let deadline: u64 = if d <= u64::MAX - now {
                now + d
            } else {
                u64::MAX
            };
            timers.push(deadline);
        },
    }
}

/// Moves every due timer's `Tick` onto the queue and keeps the rest, in order.
fn fire_due(timers: &mut Vec<u64>, queue: &mut Vec<Msg>, now: u64)
    ensures
        final(timers)@ == pending_of(old(timers)@, now),
        final(queue)@ == old(queue)@ + fired_ticks(old(timers)@, now),
{
    let mut kept: Vec<u64> = Vec::new();
    let mut i: usize = 0;
    while i < timers.len()
        invariant
            i <= timers@.len(),
            kept@ == pending_of(timers@.subrange(0, i as int), now),
            queue@ == old(queue)@ + fired_ticks(timers@.subrange(0, i as int), now),
            timers@ == old(timers)@,
        decreases timers@.len() - i,
    {
        let t = timers[i];
        proof {
            assert(timers@.subrange(0, i + 1).drop_last() =~= timers@.subrange(0, i as int));
            assert(timers@.subrange(0, i + 1).last() == timers@[i as int]);
            if t <= now {
                assert(fired_ticks(timers@.subrange(0, i + 1), now) =~= fired_ticks(
                    timers@.subrange(0, i as int),
                    now,
                ).push(Msg::Tick));
            } else {
                assert(fired_ticks(timers@.subrange(0, i + 1), now) =~= fired_ticks(
                    timers@.subrange(0, i as int),
                    now,
                ));
            }
        }
        if t > now {
            kept.push(t);
        } else {
            queue.push(Msg::Tick);
        }
        i += 1;
    }
    proof {
        assert(timers@.subrange(0, timers@.len() as int) =~= timers@);
    }
    *timers = kept;
}

/// The abstract state of a running program: the model, the loop status, the
/// pending messages, the outstanding timer deadlines, the clock reading, and
/// the reading at the last forced tick.
#[verifier::ext_equal]
pub struct ProgramView<M: LumaModel> {
    pub model: M::St,
    pub status: Status,
    pub queue: Seq<Msg>,
    pub timers: Seq<u64>,
    pub now: u64,
    pub last_forced: u64,
}

impl<M: LumaModel> ProgramView<M> {
    /// Advances the clock: every timer due by `now` has enqueued its `Tick`.
    pub open spec fn with_clock(self, now: u64) -> Self {
        ProgramView {
            now,
            queue: self.queue + fired_ticks(self.timers, now),
            timers: pending_of(self.timers, now),
            ..self
        }
    }

    /// Delivers one message to the model and dispatches the command it
    /// returns. The loop status is untouched here.
    pub open spec fn apply(self, msg: Msg) -> Self {
        ProgramView {
            model: M::next_of(self.model, msg).0,
            queue: spec_dispatch(self.queue, self.timers, M::next_of(self.model, msg).1, self.now).0,
            timers: spec_dispatch(self.queue, self.timers, M::next_of(self.model, msg).1, self.now).1,
            ..self
        }
    }

    /// Drains at most one pending message from the queue; if the delivered
    /// message or the resulting command is `Quit`, the loop terminates.
    pub open spec fn drain_one(self) -> Self {
        if self.queue.len() == 0 {
            self
        } else {
            let msg = self.queue.first();
            let cmd = M::next_of(self.model, msg).1;
            let drained = ProgramView { queue: self.queue.drop_first(), ..self };
            let applied = drained.apply(msg);
            ProgramView {
                status: if msg == Msg::Quit || cmd == Cmd::Quit {
                    Status::Terminated
                } else {
                    self.status
                },
                ..applied
            }
        }
    }

    /// Delivers the polled key event, if any, directly to the model.
    pub open spec fn key_input(self, key: Option<KeyEvent>) -> Self {
        match key {
            Option::Some(k) => self.apply(Msg::Key(k)),
            Option::None => self,
        }
    }

    /// Delivers the clock-based forced tick once the interval has elapsed.
    pub open spec fn forced_tick(self) -> Self {
        if self.now - self.last_forced > FORCED_TICK_INTERVAL_MS {
            ProgramView { last_forced: self.now, ..self.apply(Msg::Tick) }
        } else {
            self
        }
    }

    /// Running `init` once and dispatching the command it returns.
    pub open spec fn started(self) -> Self {
        ProgramView {
            model: M::start_of(self.model).0,
            queue: spec_dispatch(self.queue, self.timers, M::start_of(self.model).1, self.now).0,
            timers: spec_dispatch(self.queue, self.timers, M::start_of(self.model).1, self.now).1,
            ..self
        }
    }

    /// One loop iteration, in strict order: due timers enqueue, one queued
    /// message is drained, the polled key is delivered, the forced tick is
    /// delivered, and the view is rendered. Once the loop has terminated no
    /// further message is ever delivered.
    pub open spec fn step(self, key: Option<KeyEvent>, now: u64) -> Self {
        if self.status == Status::Terminated {
            self
        } else {
            let ticked = self.with_clock(now);
            let drained = ticked.drain_one();
            if drained.status == Status::Terminated {
                drained
            } else {
                drained.key_input(key).forced_tick()
            }
        }
    }
}

/// The event loop runtime: owns the model, the loop status, the message
/// queue, the outstanding timers, and the modeled clock.
pub struct Program<M: LumaModel> {
    pub model: M,
    pub status: Status,
    pub queue: Vec<Msg>,
    pub timers: Vec<u64>,
    pub now: u64,
    pub last_forced: u64,
}

impl<M: LumaModel> View for Program<M> {
    type V = ProgramView<M>;

    open spec fn view(&self) -> ProgramView<M> {
        ProgramView {
            model: self.model.abs(),
            status: self.status,
            queue: self.queue@,
            timers: self.timers@,
            now: self.now,
            last_forced: self.last_forced,
        }
    }
}

impl<M: LumaModel> Program<M> {
    /// Builds a runtime around a model, at clock reading `now`, with an empty
    /// queue, no timers, and the loop in its initial `Running` state.
    pub fn new(model: M, now: u64) -> (p: Program<M>)
        ensures
            p@ == (ProgramView::<M> {
                model: model.abs(),
                status: Status::Running,
                queue: Seq::<Msg>::empty(),
                timers: Seq::<u64>::empty(),
                now,
                last_forced: now,
            }),
    {
        let p = Program {
            model,
            status: Status::Running,
            queue: Vec::new(),
            timers: Vec::new(),
            now,
            last_forced: now,
        };
        proof {
            assert(p@ =~= (ProgramView::<M> {
                model: model.abs(),
                status: Status::Running,
                queue: Seq::<Msg>::empty(),
                timers: Seq::<u64>::empty(),
                now,
                last_forced: now,
            }));
        }
        p
    }

    /// Calls `init` once and dispatches the command it returns.
    pub fn start(&mut self)
        ensures
            final(self)@ == old(self)@.started(),
    {
        let c = self.model.init();
        dispatch(c, &mut self.queue, &mut self.timers, self.now);
        proof {
            assert(final(self)@ =~= old(self)@.started());
        }
    }

    /// Whether the loop has reached its final state.
    pub fn is_terminated(&self) -> (r: bool)
        ensures
            r == (self@.status == Status::Terminated),
    {
        match self.status {
            Status::Terminated => true,
            Status::Running => false,
        }
    }

    /// One iteration of the event loop at clock reading `now`, with `key` the
    /// event the bounded input poll returned, if any. Returns the rendered
    /// view of the model after the iteration.
    pub fn step(&mut self, key: Option<KeyEvent>, now: u64) -> (v: String)
        ensures
            final(self)@ == old(self)@.step(key, now),
            v@ == M::render_of(old(self)@.step(key, now).model),
    {
        match self.status {
            Status::Terminated => {
                return self.model.view();
            },
            Status::Running => {},
        }
        self.now = now;
        fire_due(&mut self.timers, &mut self.queue, now);
        proof {
            assert(self@ =~= old(self)@.with_clock(now));
        }
        let ghost ticked = old(self)@.with_clock(now);
        if self.queue.len() > 0 {
            let msg = self.queue.remove(0);
            proof {
                assert(self.queue@ =~= ticked.queue.drop_first());
            }
            let c = self.model.update(msg);
            dispatch(c, &mut self.queue, &mut self.timers, self.now);
            let is_quit_msg = matches!(msg, Msg::Quit);
            let is_quit_cmd = matches!(c, Cmd::Quit);
            if is_quit_msg || is_quit_cmd {
                self.status = Status::Terminated;
            }
            proof {
                assert(self@ =~= ticked.drain_one());
            }
        }
        let ghost drained = ticked.drain_one();
        match self.status {
            Status::Terminated => {
                return self.model.view();
            },
            Status::Running => {},
        }
        if let Option::Some(k) = key {
            let c = self.model.update(Msg::Key(k));
            dispatch(c, &mut self.queue, &mut self.timers, self.now);
        }
        proof {
            assert(self@ =~= drained.key_input(key));
        }
        let ghost keyed = drained.key_input(key);
        if now > self.last_forced && now - self.last_forced > FORCED_TICK_INTERVAL_MS {
            let c = self.model.update(Msg::Tick);
            dispatch(c, &mut self.queue, &mut self.timers, self.now);
            self.last_forced = now;
        }
        proof {
            assert(self@ =~= keyed.forced_tick());
        }
        self.model.view()
    }
}

/// Dispatching `Nothing` enqueues no message and schedules no timer.
pub proof fn lemma_dispatch_nothing(queue: Seq<Msg>, timers: Seq<u64>, now: u64)
    ensures
        spec_dispatch(queue, timers, Cmd::Nothing, now) == (queue, timers),
{
}

/// Dispatching `Quit` enqueues exactly one message, that message is `Quit`,
/// it is on the queue before the dispatch returns, and no timer is touched.
pub proof fn lemma_dispatch_quit(queue: Seq<Msg>, timers: Seq<u64>, now: u64)
    ensures
        spec_dispatch(queue, timers, Cmd::Quit, now).0 == queue.push(Msg::Quit),
        spec_dispatch(queue, timers, Cmd::Quit, now).1 == timers,
{
}

/// Dispatching a timer command enqueues no message yet and schedules exactly
/// one new timer, keeping every earlier one: outstanding timers coexist, none
/// is deduplicated or cancelled.
pub proof fn lemma_dispatch_schedule(queue: Seq<Msg>, timers: Seq<u64>, d: u64, now: u64)
    ensures
        spec_dispatch(queue, timers, Cmd::Tick(d), now).0 == queue,
        spec_dispatch(queue, timers, Cmd::Tick(d), now).1 == timers.push(tick_deadline(now, d)),
{
}

/// A timer scheduled at clock reading `scheduled` for `d` milliseconds fires
/// no `Tick` at any clock reading earlier than `d` past `scheduled`: it stays
/// on the timer list and the count of fired ticks is unchanged by it.
pub proof fn lemma_no_early_fire(timers: Seq<u64>, scheduled: u64, d: u64, now: u64)
    requires
        scheduled + d <= u64::MAX,
        now - scheduled < d,
    ensures
        fired_count(timers.push(tick_deadline(scheduled, d)), now) == fired_count(timers, now),
        pending_of(timers.push(tick_deadline(scheduled, d)), now) == pending_of(
            timers,
            now,
        ).push(tick_deadline(scheduled, d)),
{
    assert(timers.push(tick_deadline(scheduled, d)).drop_last() =~= timers);
}

/// Once due, a timer contributes exactly one `Tick` and leaves the timer
/// list, so it can never fire a second one.
pub proof fn lemma_due_fires_once(timers: Seq<u64>, deadline: u64, now: u64)
    requires
        deadline <= now,
    ensures
        fired_count(timers.push(deadline), now) == fired_count(timers, now) + 1,
        pending_of(timers.push(deadline), now) == pending_of(timers, now),
{
    assert(timers.push(deadline).drop_last() =~= timers);
}

/// A terminated loop is final: a further iteration delivers no message and
/// changes nothing.
pub proof fn lemma_terminated_is_final<M: LumaModel>(
    p: ProgramView<M>,
    key: Option<KeyEvent>,
    now: u64,
)
    requires
        p.status == Status::Terminated,
    ensures
        p.step(key, now) == p,
{
}

/// A running loop terminates in an iteration exactly when the message it
/// drains is `Quit` or is answered with the quit command: key events and the
/// forced tick never terminate the loop by themselves.
pub proof fn lemma_step_terminates_iff_quit_drained<M: LumaModel>(
    p: ProgramView<M>,
    key: Option<KeyEvent>,
    now: u64,
)
    requires
        p.status == Status::Running,
    ensures
        ({
            let ticked = p.with_clock(now);
            p.step(key, now).status == Status::Terminated <==> ticked.queue.len() > 0 && (
            ticked.queue.first() == Msg::Quit || M::next_of(p.model, ticked.queue.first()).1
                == Cmd::Quit)
        }),
{
}

/// Delivering a pending `Quit` message terminates the loop within the same
/// iteration: the model sees `Quit` and then no further message, whatever key
/// was polled and however far the clock advanced.
pub proof fn lemma_quit_delivery_terminates<M: LumaModel>(
    p: ProgramView<M>,
    key: Option<KeyEvent>,
    now: u64,
)
    requires
        p.status == Status::Running,
        p.queue.len() > 0,
        p.queue.first() == Msg::Quit,
    ensures
        p.step(key, now).status == Status::Terminated,
        p.step(key, now).model == M::next_of(p.model, Msg::Quit).0,
{
    let ticked = p.with_clock(now);
    assert(ticked.queue.first() == Msg::Quit);
}

} // verus!

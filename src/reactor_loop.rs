//! The decisions of the reactor: when to poll the task, when to drain the
//! native message queue, when to wait, and when to return.
//!
//! The reactor alternates between polling one task and draining the thread's
//! native message queue. The task is polled first. While it is pending, every
//! message in the queue is peeked and dispatched in turn; an empty queue makes
//! the reactor wait for either its wake signal (poll the task again) or a new
//! message (drain again). A quit message ends the loop.

use crate::client::after_window_destroyed;
use vstd::prelude::*;

verus! {

/// Where the reactor stands.
#[derive(Debug, Clone, Copy, PartialEq, Eq, Structural)]
pub enum Phase {
    /// The task is about to be polled.
    Polling,
    /// The message queue is being drained.
    Draining,
    /// The reactor waits for its wake signal or a new message.
    Waiting,
    /// The reactor has returned.
    Finished,
}

/// What a peek at the native message queue found.
#[derive(Debug, Clone, Copy, PartialEq, Eq, Structural)]
pub enum Peek {
    /// The queue is empty.
    Empty,
    /// A quit message was taken from the queue.
    Quit,
    /// Some other message was taken from the queue.
    Message,
}

/// How a wait for "wake signal or new message" ended.
#[derive(Debug, Clone, Copy, PartialEq, Eq, Structural)]
pub enum WaitOutcome {
    /// The wake signal was set: the task may make progress.
    Woken,
    /// A new message is in the queue.
    MessageReady,
    /// The wait itself failed.
    Failed,
    /// The wait returned a code it is not documented to return.
    Unexpected(u32),
}

/// What happened since the reactor's last decision.
#[derive(Debug, Clone, Copy, PartialEq, Eq, Structural)]
pub enum Happened {
    /// The task was polled; `true` when it completed.
    Polled(bool),
    /// The message queue was peeked.
    Peeked(Peek),
    /// A wait ended.
    WaitEnded(WaitOutcome),
}

/// What the reactor does next.
#[derive(Debug, Clone, Copy, PartialEq, Eq, Structural)]
pub enum Step {
    /// Poll the task.
    PollTask,
    /// Peek at the message queue, removing the message found.
    PeekMessage,
    /// Dispatch the message just peeked, then peek at the queue again.
    Dispatch,
    /// Wait for the wake signal or a new message.
    Wait,
    /// Return the task's output.
    ReturnReady,
    /// Return without output: the application was told to quit.
    ReturnQuit,
    /// Return the error of the failed wait.
    ReturnError,
}

/// Whether `happened` can follow a decision taken in `phase`.
pub open spec fn accepts(phase: Phase, happened: Happened) -> bool {
    match (phase, happened) {
        (Phase::Polling, Happened::Polled(_)) => true,
        (Phase::Draining, Happened::Peeked(_)) => true,
        (Phase::Waiting, Happened::WaitEnded(_)) => true,
        _ => false,
    }
}

/// The reactor's next phase and next step.
pub open spec fn transition(phase: Phase, happened: Happened) -> (Phase, Step) {
    match happened {
        Happened::Polled(true) => (Phase::Finished, Step::ReturnReady),
        Happened::Polled(false) => (Phase::Draining, Step::PeekMessage),
        Happened::Peeked(Peek::Empty) => (Phase::Waiting, Step::Wait),
        Happened::Peeked(Peek::Quit) => (Phase::Finished, Step::ReturnQuit),
        Happened::Peeked(Peek::Message) => (Phase::Draining, Step::Dispatch),
        Happened::WaitEnded(WaitOutcome::Woken) => (Phase::Polling, Step::PollTask),
        Happened::WaitEnded(WaitOutcome::MessageReady) => (Phase::Draining, Step::PeekMessage),
        Happened::WaitEnded(WaitOutcome::Failed) => (Phase::Finished, Step::ReturnError),
        Happened::WaitEnded(WaitOutcome::Unexpected(_)) => (Phase::Polling, Step::PollTask),
    }
}

/// The reactor's decisions for one call of `block_on`.
#[derive(Debug)]
pub struct ReactorLoop {
    phase: Phase,
}

impl ReactorLoop {
    /// Where this reactor stands.
    pub closed spec fn phase_spec(&self) -> Phase {
        self.phase
    }

    /// A reactor about to poll its task for the first time.
    pub fn new() -> (r: Self)
        ensures
            r.phase_spec() == Phase::Polling,
    {
        ReactorLoop { phase: Phase::Polling }
    }

    /// Where this reactor stands.
    pub fn phase(&self) -> (r: Phase)
        ensures
            r == self.phase_spec(),
    {
        self.phase
    }

    /// Take the next decision, given what happened since the last one.
    pub fn advance(&mut self, happened: Happened) -> (r: Step)
        requires
            accepts(old(self).phase_spec(), happened),
        ensures
            (final(self).phase_spec(), r) == transition(old(self).phase_spec(), happened),
    {
        let (phase, step) = match happened {
            Happened::Polled(true) => (Phase::Finished, Step::ReturnReady),
            Happened::Polled(false) => (Phase::Draining, Step::PeekMessage),
            Happened::Peeked(Peek::Empty) => (Phase::Waiting, Step::Wait),
            Happened::Peeked(Peek::Quit) => (Phase::Finished, Step::ReturnQuit),
            Happened::Peeked(Peek::Message) => (Phase::Draining, Step::Dispatch),
            Happened::WaitEnded(WaitOutcome::Woken) => (Phase::Polling, Step::PollTask),
            Happened::WaitEnded(WaitOutcome::MessageReady) => (Phase::Draining, Step::PeekMessage),
            Happened::WaitEnded(WaitOutcome::Failed) => (Phase::Finished, Step::ReturnError),
            Happened::WaitEnded(WaitOutcome::Unexpected(_)) => (Phase::Polling, Step::PollTask),
        };
        self.phase = phase;
        step
    }
}


/// Whether every entry of `events` can follow the decisions taken before it,
/// starting in `phase`.
pub open spec fn accepted_run(phase: Phase, events: Seq<Happened>) -> bool
    decreases events.len(),
{
    events.len() == 0 || (accepts(phase, events[0]) && accepted_run(
        transition(phase, events[0]).0,
        events.drop_first(),
    ))
}

/// The phase reached from `phase` after `events`, and the steps decided on
/// the way, in order.
pub open spec fn run(phase: Phase, events: Seq<Happened>) -> (Phase, Seq<Step>)
    decreases events.len(),
{
    if events.len() == 0 {
        (phase, Seq::empty())
    } else {
        let first = transition(phase, events[0]);
        let rest = run(first.0, events.drop_first());
        (rest.0, seq![first.1] + rest.1)
    }
}

/// `n` messages other than quit, found one after another in the queue.
pub open spec fn messages(n: nat) -> Seq<Happened> {
    Seq::new(n, |i: int| Happened::Peeked(Peek::Message))
}

/// `n` dispatches in a row.
pub open spec fn dispatches(n: nat) -> Seq<Step> {
    Seq::new(n, |i: int| Step::Dispatch)
}

/// A task that is ready at its first poll ends the reactor with its output at
/// once: no decision to drain, dispatch or wait is ever taken, and nothing
/// more is accepted.
pub proof fn law_ready_task_returns_without_draining(events: Seq<Happened>)
    requires
        events.len() > 0,
        events[0] == Happened::Polled(true),
        accepted_run(Phase::Polling, events),
    ensures
        events.len() == 1,
        run(Phase::Polling, events) == (Phase::Finished, seq![Step::ReturnReady]),
{
    reveal_with_fuel(accepted_run, 2);
    reveal_with_fuel(run, 2);
    assert(events.drop_first().len() == 0 || !accepts(Phase::Finished, events.drop_first()[0]));
    assert(seq![Step::ReturnReady] + Seq::<Step>::empty() =~= seq![Step::ReturnReady]);
}

/// A quit message found in the queue ends the reactor without output: in any
/// accepted run, it is the last thing that happens, and the reactor's last
/// decision is to return without output.
pub proof fn law_quit_returns_without_output(phase: Phase, events: Seq<Happened>, i: int)
    requires
        accepted_run(phase, events),
        0 <= i < events.len(),
        events[i] == Happened::Peeked(Peek::Quit),
    ensures
        i == events.len() - 1,
        run(phase, events).0 == Phase::Finished,
        run(phase, events).1.last() == Step::ReturnQuit,
    decreases events.len(),
{
    reveal_with_fuel(accepted_run, 2);
    reveal_with_fuel(run, 2);
    let first = transition(phase, events[0]);
    let rest = events.drop_first();
    if i == 0 {
        assert(rest.len() == 0 || !accepts(Phase::Finished, rest[0]));
        assert(seq![first.1] + Seq::<Step>::empty() =~= seq![Step::ReturnQuit]);
    } else {
        assert(rest[i - 1] == events[i]);
        law_quit_returns_without_output(first.0, rest, i - 1);
        assert((seq![first.1] + run(first.0, rest).1).last() == run(first.0, rest).1.last());
    }
}

proof fn lemma_drain_to_quit(n: nat)
    ensures
        accepted_run(Phase::Draining, messages(n).push(Happened::Peeked(Peek::Quit))),
        run(Phase::Draining, messages(n).push(Happened::Peeked(Peek::Quit)))
            == (Phase::Finished, dispatches(n).push(Step::ReturnQuit)),
    decreases n,
{
    reveal_with_fuel(accepted_run, 2);
    reveal_with_fuel(run, 2);
    let events = messages(n).push(Happened::Peeked(Peek::Quit));
    if n == 0 {
        assert(events.drop_first() =~= Seq::<Happened>::empty());
        assert(seq![Step::ReturnQuit] + Seq::<Step>::empty() =~= dispatches(0).push(Step::ReturnQuit));
    } else {
        let m = (n - 1) as nat;
        assert(events[0] == Happened::Peeked(Peek::Message));
        assert(events.drop_first() =~= messages(m).push(Happened::Peeked(Peek::Quit)));
        lemma_drain_to_quit(m);
        assert(seq![Step::Dispatch] + dispatches(m).push(Step::ReturnQuit)
            =~= dispatches(n).push(Step::ReturnQuit));
    }
}

/// Destroying the last live window brings the window count to zero and asks
/// for a quit. When the reactor next drains the queue, it dispatches whatever
/// messages came before the quit message, then returns without output.
pub proof fn law_last_window_ends_the_reactor(count: nat, before: nat)
    requires
        count == 1,
    ensures
        after_window_destroyed(count) == (0nat, true),
        accepted_run(Phase::Draining, messages(before).push(Happened::Peeked(Peek::Quit))),
        run(Phase::Draining, messages(before).push(Happened::Peeked(Peek::Quit)))
            == (Phase::Finished, dispatches(before).push(Step::ReturnQuit)),
        accepted_run(
            Phase::Waiting,
            seq![Happened::WaitEnded(WaitOutcome::MessageReady)] + messages(before).push(
                Happened::Peeked(Peek::Quit),
            ),
        ),
        run(
            Phase::Waiting,
            seq![Happened::WaitEnded(WaitOutcome::MessageReady)] + messages(before).push(
                Happened::Peeked(Peek::Quit),
            ),
        ).0 == Phase::Finished,
{
    lemma_drain_to_quit(before);
    let tail = messages(before).push(Happened::Peeked(Peek::Quit));
    let events = seq![Happened::WaitEnded(WaitOutcome::MessageReady)] + tail;
    assert(events.drop_first() =~= tail);
}

} // verus!

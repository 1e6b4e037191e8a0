//! Per-window state: the queue of events not yet handed to the handler, the
//! re-entrancy depth of the window procedure, and a slot for a deferred panic.
//!
//! The window procedure opens a dispatch scope for each message, pushes what
//! the message means, then releases the scope. Only the release of the
//! outermost scope hands events out, one at a time and in arrival order; while
//! it does so the scope stays open, so that events pushed by re-entrant calls
//! wait their turn at the back of the queue.

use crate::event::Event;
use vstd::prelude::*;

verus! {

/// The abstract state of the dispatch discipline.
pub struct ScopeState {
    /// How many dispatch scopes are open.
    pub depth: nat,
    /// Events pushed and not yet handed out, oldest first.
    pub pending: Seq<Event>,
}

/// The state after `push(e)`.
pub open spec fn push_spec(s: ScopeState, e: Event) -> ScopeState {
    ScopeState { depth: s.depth, pending: s.pending.push(e) }
}

/// The state after a dispatch scope is opened.
pub open spec fn enter_spec(s: ScopeState) -> ScopeState {
    ScopeState { depth: s.depth + 1, pending: s.pending }
}

/// The state after one release of the innermost scope, and the event that the
/// release hands to the handler, if any.
///
/// An inner scope closes and hands out nothing. The outermost scope hands out
/// the oldest pending event and stays open; once nothing is pending it closes.
pub open spec fn release_spec(s: ScopeState) -> (ScopeState, Option<Event>) {
    if s.depth > 1 {
        (ScopeState { depth: (s.depth - 1) as nat, pending: s.pending }, None)
    } else if s.pending.len() == 0 {
        (ScopeState { depth: 0, pending: s.pending }, None)
    } else {
        (ScopeState { depth: s.depth, pending: s.pending.drop_first() }, Some(s.pending[0]))
    }
}

/// The state after the innermost scope is closed by a panic unwinding
/// through it: nothing is handed out and nothing pending is lost.
pub open spec fn abandon_spec(s: ScopeState) -> ScopeState {
    ScopeState { depth: (s.depth - 1) as nat, pending: s.pending }
}

/// The panic slot after a caught panic is stored in it.
pub open spec fn defer_spec<P>(slot: Option<P>, payload: P) -> Option<P> {
    Some(payload)
}

/// The panic slot after it is taken back, and what is taken.
pub open spec fn take_spec<P>(slot: Option<P>) -> (Option<P>, Option<P>) {
    (None, slot)
}

/// The state of one live window.
///
/// `P` is the type of a panic payload caught in the window procedure.
pub struct WindowState<P> {
    handle: isize,
    queue: std::collections::VecDeque<Event>,
    depth: u32,
    panic: Option<P>,
}

impl<P> WindowState<P> {
    /// The dispatch discipline's view of this window.
    pub closed spec fn scope(&self) -> ScopeState {
        ScopeState { depth: self.depth as nat, pending: self.queue@ }
    }

    /// The native handle of this window.
    pub closed spec fn handle_spec(&self) -> isize {
        self.handle
    }

    /// The panic caught and not yet taken back, if any.
    pub closed spec fn deferred(&self) -> Option<P> {
        self.panic
    }

    /// The state of a window that has just been created: nothing pending, no
    /// scope open, no panic caught.
    pub fn new(handle: isize) -> (r: Self)
        ensures
            r.scope().depth == 0,
            r.scope().pending == Seq::<Event>::empty(),
            r.handle_spec() == handle,
            r.deferred() is None,
    {
        WindowState { handle, queue: std::collections::VecDeque::new(), depth: 0, panic: None }
    }

    /// The native handle of this window.
    pub fn handle(&self) -> (r: isize)
        ensures
            r == self.handle_spec(),
    {
        self.handle
    }

    /// The number of open dispatch scopes.
    pub fn depth(&self) -> (r: u32)
        ensures
            r as nat == self.scope().depth,
    {
        self.depth
    }

    /// The number of events waiting to be handed out.
    pub fn pending_len(&self) -> (r: usize)
        ensures
            r == self.scope().pending.len(),
    {
        self.queue.len()
    }

    /// Append an event to the back of the queue.
    pub fn push(&mut self, event: Event)
        ensures
            final(self).scope() == push_spec(old(self).scope(), event),
            final(self).handle_spec() == old(self).handle_spec(),
            final(self).deferred() == old(self).deferred(),
    {
        self.queue.push_back(event);
    }

    /// Open a dispatch scope.
    pub fn begin_dispatch_scope(&mut self)
        requires
            old(self).scope().depth < u32::MAX as nat,
        ensures
            final(self).scope() == enter_spec(old(self).scope()),
            final(self).handle_spec() == old(self).handle_spec(),
            final(self).deferred() == old(self).deferred(),
    {
        self.depth = self.depth + 1;
    }

    /// Release the innermost dispatch scope.
    ///
    /// Returns the next event for the handler, if any. When an event is
    /// returned, the outermost scope is still open: the caller hands the event
    /// to the handler and releases again, until `None` comes back.
    pub fn release_dispatch_scope(&mut self) -> (r: Option<Event>)
        requires
            old(self).scope().depth > 0,
        ensures
            (final(self).scope(), r) == release_spec(old(self).scope()),
            final(self).handle_spec() == old(self).handle_spec(),
            final(self).deferred() == old(self).deferred(),
    {
        if self.depth > 1 {
            self.depth = self.depth - 1;
            None
        } else {
            match self.queue.pop_front() {
                Some(event) => Some(event),
                None => {
                    self.depth = 0;
                    None
                },
            }
        }
    }

    /// Close the innermost dispatch scope without handing anything out.
    ///
    /// This is the release taken while a panic unwinds through the window
    /// procedure: pending events stay queued for a later release.
    pub fn abandon_dispatch_scope(&mut self)
        requires
            old(self).scope().depth > 0,
        ensures
            final(self).scope() == abandon_spec(old(self).scope()),
            final(self).handle_spec() == old(self).handle_spec(),
            final(self).deferred() == old(self).deferred(),
    {
        self.depth = self.depth - 1;
    }

    /// Whether a caught panic waits to be re-raised.
    pub fn has_deferred_panic(&self) -> (r: bool)
        ensures
            r == self.deferred() is Some,
    {
        self.panic.is_some()
    }

    /// Keep a panic caught in the window procedure until the code that
    /// created the window can re-raise it.
    ///
    /// A second panic before the first was taken back means overlapping
    /// failures; the caller treats that as fatal and does not get here.
    pub fn defer_panic(&mut self, payload: P)
        requires
            old(self).deferred() is None,
        ensures
            final(self).deferred() == defer_spec(old(self).deferred(), payload),
            final(self).scope() == old(self).scope(),
            final(self).handle_spec() == old(self).handle_spec(),
    {
        self.panic = Some(payload);
    }

    /// Take back the deferred panic, if any, leaving the slot empty.
    pub fn take_deferred_panic(&mut self) -> (r: Option<P>)
        ensures
            (final(self).deferred(), r) == take_spec(old(self).deferred()),
            final(self).scope() == old(self).scope(),
            final(self).handle_spec() == old(self).handle_spec(),
    {
        self.panic.take()
    }
}


/// One call on a window's dispatch discipline.
pub enum ScopeOp {
    /// `begin_dispatch_scope`.
    Enter,
    /// `push` of an event.
    Push(Event),
    /// `release_dispatch_scope`.
    Release,
    /// `abandon_dispatch_scope`.
    Abandon,
}

/// The events that a release hands out, as a sequence of zero or one.
pub open spec fn handed_out(r: Option<Event>) -> Seq<Event> {
    match r {
        Some(e) => seq![e],
        None => Seq::empty(),
    }
}

/// The state after one call, and what it handed out.
pub open spec fn step_spec(s: ScopeState, op: ScopeOp) -> (ScopeState, Seq<Event>) {
    match op {
        ScopeOp::Enter => (enter_spec(s), Seq::empty()),
        ScopeOp::Push(e) => (push_spec(s, e), Seq::empty()),
        ScopeOp::Release => (release_spec(s).0, handed_out(release_spec(s).1)),
        ScopeOp::Abandon => (abandon_spec(s), Seq::empty()),
    }
}

/// The state after a sequence of calls, and every event handed out, in order.
pub open spec fn replay(s: ScopeState, ops: Seq<ScopeOp>) -> (ScopeState, Seq<Event>)
    decreases ops.len(),
{
    if ops.len() == 0 {
        (s, Seq::empty())
    } else {
        let first = step_spec(s, ops[0]);
        let rest = replay(first.0, ops.drop_first());
        (rest.0, first.1 + rest.1)
    }
}

/// Whether, starting at depth `depth`, every release or abandon in `ops`
/// closes an inner scope: the outermost scope stays open throughout.
pub open spec fn stays_nested(depth: nat, ops: Seq<ScopeOp>) -> bool
    decreases ops.len(),
{
    if ops.len() == 0 {
        true
    } else {
        match ops[0] {
            ScopeOp::Enter => stays_nested(depth + 1, ops.drop_first()),
            ScopeOp::Push(_) => stays_nested(depth, ops.drop_first()),
            _ => depth >= 2 && stays_nested((depth - 1) as nat, ops.drop_first()),
        }
    }
}

/// The depth reached from `depth` after `ops`.
pub open spec fn depth_after(depth: nat, ops: Seq<ScopeOp>) -> int
    decreases ops.len(),
{
    if ops.len() == 0 {
        depth as int
    } else {
        match ops[0] {
            ScopeOp::Enter => depth_after(depth + 1, ops.drop_first()),
            ScopeOp::Push(_) => depth_after(depth, ops.drop_first()),
            _ => depth_after((depth - 1) as nat, ops.drop_first()),
        }
    }
}

/// The events pushed by `ops`, in order.
pub open spec fn pushed(ops: Seq<ScopeOp>) -> Seq<Event>
    decreases ops.len(),
{
    if ops.len() == 0 {
        Seq::empty()
    } else {
        match ops[0] {
            ScopeOp::Push(e) => seq![e] + pushed(ops.drop_first()),
            _ => pushed(ops.drop_first()),
        }
    }
}

/// `n` releases in a row.
pub open spec fn releases(n: nat) -> Seq<ScopeOp> {
    Seq::new(n, |i: int| ScopeOp::Release)
}

/// The state of a window with no scope open and nothing pending.
pub open spec fn idle() -> ScopeState {
    ScopeState { depth: 0, pending: Seq::empty() }
}

proof fn lemma_nested_hands_out_nothing(s: ScopeState, ops: Seq<ScopeOp>)
    requires
        s.depth >= 1,
        stays_nested(s.depth, ops),
    ensures
        replay(s, ops).1 == Seq::<Event>::empty(),
        replay(s, ops).0.pending == s.pending + pushed(ops),
        replay(s, ops).0.depth == depth_after(s.depth, ops),
    decreases ops.len(),
{
    if ops.len() == 0 {
        assert(s.pending + pushed(ops) =~= s.pending);
    } else {
        let first = step_spec(s, ops[0]);
        lemma_nested_hands_out_nothing(first.0, ops.drop_first());
        match ops[0] {
            ScopeOp::Push(e) => {
                assert(s.pending + pushed(ops) =~= s.pending.push(e) + pushed(ops.drop_first()));
            },
            _ => {},
        }
        assert(first.1 + Seq::<Event>::empty() =~= Seq::<Event>::empty());
    }
}

proof fn lemma_outermost_release_drains(s: ScopeState)
    requires
        s.depth == 1,
    ensures
        replay(s, releases(s.pending.len() + 1)) == (idle(), s.pending),
    decreases s.pending.len(),
{
    let ops = releases(s.pending.len() + 1);
    if s.pending.len() == 0 {
        assert(ops[0] == ScopeOp::Release);
        assert(ops.drop_first() =~= Seq::<ScopeOp>::empty());
        assert(s.pending =~= Seq::<Event>::empty());
        let first = step_spec(s, ops[0]);
        assert(first.0 == idle());
        assert(replay(first.0, ops.drop_first()) == (first.0, Seq::<Event>::empty()));
        assert(first.1 + Seq::<Event>::empty() =~= s.pending);
    } else {
        let next = ScopeState { depth: 1, pending: s.pending.drop_first() };
        assert(ops.drop_first() =~= releases(next.pending.len() + 1));
        lemma_outermost_release_drains(next);
        assert(seq![s.pending[0]] + next.pending =~= s.pending);
    }
}

/// Whatever is pushed while the outermost dispatch scope is open, and however
/// deeply re-entrant scopes nest inside it, nothing reaches the handler until
/// the outermost scope is released; its release then hands out exactly the
/// pushed events, in the order they were pushed, and leaves the window idle.
pub proof fn law_nested_pushes_wait_for_outermost_release(ops: Seq<ScopeOp>)
    requires
        stays_nested(1, ops),
        depth_after(1, ops) == 1,
    ensures
        replay(idle(), seq![ScopeOp::Enter] + ops).1 == Seq::<Event>::empty(),
        replay(idle(), seq![ScopeOp::Enter] + ops).0 == (ScopeState { depth: 1, pending: pushed(ops) }),
        replay(
            replay(idle(), seq![ScopeOp::Enter] + ops).0,
            releases(pushed(ops).len() + 1),
        ) == (idle(), pushed(ops)),
{
    let whole = seq![ScopeOp::Enter] + ops;
    let opened = ScopeState { depth: 1, pending: Seq::empty() };
    assert(whole.drop_first() =~= ops);
    lemma_nested_hands_out_nothing(opened, ops);
    assert(Seq::<Event>::empty() + pushed(ops) =~= pushed(ops));
    assert(Seq::<Event>::empty() + Seq::<Event>::empty() =~= Seq::<Event>::empty());
    lemma_outermost_release_drains(ScopeState { depth: 1, pending: pushed(ops) });
}


/// A panic raised by the handler while the outermost scope hands events out
/// is kept, and taken back unchanged by the code that drives the window. The
/// unwinding closes the scope without losing what was still pending: the next
/// message's outermost release hands out those events first, then the new
/// one, in order, and the window is idle again.
pub proof fn law_panic_in_dispatch_is_kept_and_dispatch_recovers<P>(
    s: ScopeState,
    payload: P,
    e: Event,
)
    requires
        s.depth == 1,
    ensures
        take_spec(defer_spec(None, payload)) == (None::<P>, Some(payload)),
        abandon_spec(s) == (ScopeState { depth: 0, pending: s.pending }),
        replay(
            abandon_spec(s),
            seq![ScopeOp::Enter, ScopeOp::Push(e)] + releases(s.pending.len() + 2),
        ) == (idle(), s.pending.push(e)),
{
    let t = abandon_spec(s);
    let ops = seq![ScopeOp::Enter, ScopeOp::Push(e)] + releases(s.pending.len() + 2);
    let opened = enter_spec(t);
    let loaded = push_spec(opened, e);
    assert(ops[0] == ScopeOp::Enter);
    assert(ops.drop_first()[0] == ScopeOp::Push(e));
    assert(ops.drop_first().drop_first() =~= releases(loaded.pending.len() + 1));
    lemma_outermost_release_drains(loaded);
    let tail = replay(loaded, ops.drop_first().drop_first());
    assert(tail == (idle(), loaded.pending));
    let mid = replay(opened, ops.drop_first());
    assert(mid == (tail.0, Seq::<Event>::empty() + tail.1));
    assert(replay(t, ops) == (mid.0, Seq::<Event>::empty() + mid.1));
    assert(Seq::<Event>::empty() + (Seq::<Event>::empty() + loaded.pending) =~= s.pending.push(e));
}

} // verus!

//! The queue's behaviour as a mathematical model, and the laws proved of it.
//!
//! [`step`] gives the effect of one operation on a [`RendererView`]; the
//! contracts in [`crate::queue`] tie each executable operation to it. [`run`]
//! chains operations, so the laws below speak about whole call sequences.

use vstd::prelude::*;

use crate::commands::Command;
use crate::queue::RendererView;

verus! {

/// One call into the queue, as the model sees it.
pub enum QueueOp {
    /// `push` (and every producer operation built on it).
    Enqueue(Command),
    /// `get_commands`.
    Drain,
    /// `resize`.
    Resize(u32, u32),
    /// `init`.
    Init(u32, u32),
}

/// The effect of one operation: the state after it, paired with the commands
/// it hands to the caller (empty for everything but `Drain`).
pub open spec fn step(s: RendererView, op: QueueOp) -> (RendererView, Seq<Command>) {
    match op {
        QueueOp::Enqueue(c) => (
            RendererView { width: s.width, height: s.height, pending: s.pending.push(c) },
            Seq::<Command>::empty(),
        ),
        QueueOp::Drain => (
            RendererView { width: s.width, height: s.height, pending: Seq::<Command>::empty() },
            s.pending,
        ),
        QueueOp::Resize(w, h) => (
            RendererView { width: w, height: h, pending: s.pending },
            Seq::<Command>::empty(),
        ),
        QueueOp::Init(w, h) => (
            RendererView { width: w, height: h, pending: Seq::<Command>::empty() },
            Seq::<Command>::empty(),
        ),
    }
}

/// Runs a sequence of operations in order: the final state, paired with the
/// concatenation of every drain's output.
pub open spec fn run(s: RendererView, ops: Seq<QueueOp>) -> (RendererView, Seq<Command>)
    decreases ops.len(),
{
    if ops.len() == 0 {
        (s, Seq::<Command>::empty())
    } else {
        let head = step(s, ops[0]);
        let rest = run(head.0, ops.drop_first());
        (rest.0, head.1 + rest.1)
    }
}

/// The commands that a sequence of operations enqueues, in call order.
pub open spec fn enqueued(ops: Seq<QueueOp>) -> Seq<Command>
    decreases ops.len(),
{
    if ops.len() == 0 {
        Seq::<Command>::empty()
    } else {
        let rest = enqueued(ops.drop_first());
        match ops[0] {
            QueueOp::Enqueue(c) => seq![c] + rest,
            _ => rest,
        }
    }
}

/// True when no operation in `ops` is an `Init` reset.
pub open spec fn no_init(ops: Seq<QueueOp>) -> bool {
    forall|i: int| 0 <= i < ops.len() ==> !(ops[i] is Init)
}

/// A run of enqueues handing over the commands of `cs`, in order.
pub open spec fn enqueue_ops(cs: Seq<Command>) -> Seq<QueueOp> {
    Seq::new(cs.len(), |i: int| QueueOp::Enqueue(cs[i]))
}

/// Enqueues alone hand nothing out; they append exactly their commands, in
/// call order, at the tail of the pending sequence, and leave the viewport
/// untouched.
pub proof fn lemma_enqueue_run(s: RendererView, cs: Seq<Command>)
    ensures
        run(s, enqueue_ops(cs)).0.pending == s.pending + cs,
        run(s, enqueue_ops(cs)).0.width == s.width,
        run(s, enqueue_ops(cs)).0.height == s.height,
        run(s, enqueue_ops(cs)).1 == Seq::<Command>::empty(),
    decreases cs.len(),
{
    if cs.len() == 0 {
        assert(s.pending + cs =~= s.pending);
    } else {
        let s1 = step(s, QueueOp::Enqueue(cs[0])).0;
        lemma_enqueue_run(s1, cs.drop_first());
        assert(enqueue_ops(cs).drop_first() =~= enqueue_ops(cs.drop_first()));
        assert(s.pending.push(cs[0]) + cs.drop_first() =~= s.pending + cs);
        assert(Seq::<Command>::empty() + Seq::<Command>::empty()
            =~= Seq::<Command>::empty());
    }
}

/// FIFO: starting from an empty queue, any number of enqueues followed by a
/// drain hands back exactly those commands in enqueue order, and a second
/// drain, with no enqueue between, hands back nothing.
pub proof fn lemma_fifo(s: RendererView, cs: Seq<Command>)
    requires
        s.pending == Seq::<Command>::empty(),
    ensures
        run(s, enqueue_ops(cs)).0.pending == cs,
        step(run(s, enqueue_ops(cs)).0, QueueOp::Drain).1 == cs,
        step(step(run(s, enqueue_ops(cs)).0, QueueOp::Drain).0, QueueOp::Drain).1
            == Seq::<Command>::empty(),
{
    lemma_enqueue_run(s, cs);
    assert(s.pending + cs =~= cs);
}

/// Exactly once: over any run without an `Init` reset, the drains' outputs
/// followed by what is still pending equal the initial pending sequence
/// followed by everything enqueued — no command is lost, duplicated or
/// reordered.
pub proof fn lemma_exactly_once(s: RendererView, ops: Seq<QueueOp>)
    requires
        no_init(ops),
    ensures
        run(s, ops).1 + run(s, ops).0.pending == s.pending + enqueued(ops),
    decreases ops.len(),
{
    if ops.len() == 0 {
        assert(run(s, ops).1 + run(s, ops).0.pending =~= s.pending + enqueued(ops));
    } else {
        let head = step(s, ops[0]);
        let tail = ops.drop_first();
        assert forall|i: int| 0 <= i < tail.len() implies !(tail[i] is Init) by {
            assert(tail[i] == ops[i + 1]);
        }
        lemma_exactly_once(head.0, tail);
        let rest = run(head.0, tail);
        match ops[0] {
            QueueOp::Enqueue(c) => {
                assert(head.1 + rest.1 =~= rest.1);
                assert(rest.1 + rest.0.pending =~= s.pending.push(c) + enqueued(tail));
                assert(s.pending.push(c) + enqueued(tail)
                    =~= s.pending + (seq![c] + enqueued(tail)));
            },
            QueueOp::Drain => {
                assert((s.pending + rest.1) + rest.0.pending
                    =~= s.pending + (rest.1 + rest.0.pending));
                assert(head.0.pending + enqueued(tail) =~= enqueued(tail));
            },
            QueueOp::Resize(_, _) => {
                assert(head.1 + rest.1 =~= rest.1);
            },
            QueueOp::Init(_, _) => {
                assert(!(ops[0] is Init));
            },
        }
        assert(run(s, ops).1 =~= head.1 + rest.1);
    }
}

/// Exactly once, drained to the end: when a run without an `Init` reset
/// leaves nothing pending, the drains together handed out exactly the
/// initial pending commands followed by everything enqueued — once each, in
/// order; in particular the multisets agree.
pub proof fn lemma_exactly_once_drained(s: RendererView, ops: Seq<QueueOp>)
    requires
        no_init(ops),
        run(s, ops).0.pending == Seq::<Command>::empty(),
    ensures
        run(s, ops).1 == s.pending + enqueued(ops),
        run(s, ops).1.to_multiset() == (s.pending + enqueued(ops)).to_multiset(),
{
    lemma_exactly_once(s, ops);
    assert(run(s, ops).1 + run(s, ops).0.pending =~= run(s, ops).1);
}

/// Reset: after `init`, the next drain hands back nothing, whatever was
/// pending before, and the viewport reads back as the new dimensions.
pub proof fn lemma_init_resets(s: RendererView, w: u32, h: u32)
    ensures
        step(s, QueueOp::Init(w, h)).0.pending == Seq::<Command>::empty(),
        step(s, QueueOp::Init(w, h)).0.width == w,
        step(s, QueueOp::Init(w, h)).0.height == h,
        step(step(s, QueueOp::Init(w, h)).0, QueueOp::Drain).1 == Seq::<Command>::empty(),
{
}

/// Resize independence: `resize` leaves the pending commands exactly as they
/// were, so a following drain hands back what a drain before the resize
/// would have, intact and in order.
pub proof fn lemma_resize_independent(s: RendererView, w: u32, h: u32)
    ensures
        step(s, QueueOp::Resize(w, h)).0.pending == s.pending,
        step(s, QueueOp::Resize(w, h)).0.width == w,
        step(s, QueueOp::Resize(w, h)).0.height == h,
        step(step(s, QueueOp::Resize(w, h)).0, QueueOp::Drain).1 == s.pending,
{
}

/// Idempotent drain: the first of two back-to-back drains hands back
/// everything pending — something, whenever anything was pending — and the
/// second hands back nothing.
pub proof fn lemma_drain_idempotent(s: RendererView)
    ensures
        step(s, QueueOp::Drain).1 == s.pending,
        step(step(s, QueueOp::Drain).0, QueueOp::Drain).1 == Seq::<Command>::empty(),
        s.pending.len() > 0 ==> step(s, QueueOp::Drain).1.len() > 0,
{
}

} // verus!

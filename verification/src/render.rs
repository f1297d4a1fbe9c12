//! The render loop's coalescing rule: a burst of render triggers yields
//! exactly one paint, and a stop signal ends the loop. The loop itself,
//! the channel and the terminal live outside; they hand the drained queue
//! in and act on the decision handed back.

use vstd::prelude::*;

use crate::events::RendererMessage;

verus! {

/// What the render loop does on one wake-up.
#[derive(PartialEq, Eq, Structural, Debug)]
pub enum RenderStep {
    /// Paint the focused view once against a snapshot of shared state.
    Paint,
    /// Leave the loop and clean the terminal up.
    Stop,
}

/// How many consecutive render triggers stand at the head of the queue.
pub open spec fn leading_renders(q: Seq<RendererMessage>) -> int
    decreases q.len(),
{
    if q.len() > 0 && q.first() == RendererMessage::Render {
        1 + leading_renders(q.drop_first())
    } else {
        0
    }
}

/// The run of leading renders never leaves the queue.
pub proof fn lemma_leading_renders_bound(q: Seq<RendererMessage>)
    ensures
        0 <= leading_renders(q) <= q.len(),
    decreases q.len(),
{
    if q.len() > 0 && q.first() == RendererMessage::Render {
        lemma_leading_renders_bound(q.drop_first());
    }
}

/// A queue holding only render triggers coalesces in one step: the run of
/// leading renders is the whole burst, so one wake-up paints once and
/// leaves the queue empty.
pub proof fn lemma_burst_coalesces(q: Seq<RendererMessage>)
    requires
        forall|i: int| 0 <= i < q.len() ==> q[i] == RendererMessage::Render,
    ensures
        leading_renders(q) == q.len(),
    decreases q.len(),
{
    if q.len() > 0 {
        assert(forall|i: int|
            0 <= i < q.drop_first().len() ==> q.drop_first()[i] == RendererMessage::Render);
        lemma_burst_coalesces(q.drop_first());
    }
}

/// One wake-up of the render loop over the drained queue: nothing on an
/// empty queue; a stop at the head ends the loop; a render at the head
/// discards the whole burst of pending renders behind it and paints once.
pub fn coalesce_step(queue: &mut Vec<RendererMessage>) -> (r: Option<RenderStep>)
    ensures
        old(queue)@.len() == 0 ==> r is None && final(queue)@ == old(queue)@,
        old(queue)@.len() > 0 && old(queue)@.first() == RendererMessage::Stop ==> r == Some(
            RenderStep::Stop,
        ) && final(queue)@ == old(queue)@.drop_first(),
        old(queue)@.len() > 0 && old(queue)@.first() == RendererMessage::Render ==> r == Some(
            RenderStep::Paint,
        ) && final(queue)@ == old(queue)@.subrange(
            leading_renders(old(queue)@),
            old(queue)@.len() as int,
        ),
{
    proof {
        lemma_leading_renders_bound(queue@);
    }
    if queue.len() == 0 {
        return None;
    }
    let ghost q0 = queue@;
    let first_is_render = matches!(queue[0], RendererMessage::Render);
    if !first_is_render {
        let rest = queue.split_off(1);
        *queue = rest;
        proof {
            assert(q0.subrange(1, q0.len() as int) =~= q0.drop_first());
        }
        return Some(RenderStep::Stop);
    }
    let mut k: usize = 1;
    while k < queue.len() && matches!(queue[k], RendererMessage::Render)
        invariant
            queue@ == q0,
            1 <= k <= q0.len(),
            forall|i: int| 0 <= i < k ==> q0[i] == RendererMessage::Render,
        decreases q0.len() - k,
    {
        k += 1;
    }
    proof {
        lemma_leading_prefix(q0, k as int);
    }
    let rest = queue.split_off(k);
    *queue = rest;
    Some(RenderStep::Paint)
}

/// A maximal all-render prefix is exactly the run of leading renders.
proof fn lemma_leading_prefix(q: Seq<RendererMessage>, k: int)
    requires
        0 <= k <= q.len(),
        forall|i: int| 0 <= i < k ==> q[i] == RendererMessage::Render,
        k < q.len() ==> q[k] != RendererMessage::Render,
    ensures
        leading_renders(q) == k,
    decreases q.len(),
{
    if k == 0 {
    } else {
        assert(forall|i: int|
            0 <= i < k - 1 ==> q.drop_first()[i] == RendererMessage::Render);
        assert(k - 1 < q.drop_first().len() ==> q.drop_first()[k - 1] != RendererMessage::Render);
        lemma_leading_prefix(q.drop_first(), k - 1);
    }
}

/// A stop among the drained messages is only deferred, never lost: after a
/// paint the queue keeps everything from the first non-render message on.
pub proof fn lemma_stop_survives_paint(q: Seq<RendererMessage>, i: int)
    requires
        0 <= i < q.len(),
        q[i] == RendererMessage::Stop,
        q.len() > 0,
        q.first() == RendererMessage::Render,
    ensures
        leading_renders(q) <= i,
        q.subrange(leading_renders(q), q.len() as int)[i - leading_renders(q)]
            == RendererMessage::Stop,
{
    lemma_leading_renders_bound(q);
    lemma_leading_le_non_render(q, i);
}

/// The run of leading renders stops at or before any non-render message.
proof fn lemma_leading_le_non_render(q: Seq<RendererMessage>, i: int)
    requires
        0 <= i < q.len(),
        q[i] != RendererMessage::Render,
    ensures
        leading_renders(q) <= i,
    decreases q.len(),
{
    if q.len() > 0 && q.first() == RendererMessage::Render {
        lemma_leading_le_non_render(q.drop_first(), i - 1);
    }
}

} // verus!

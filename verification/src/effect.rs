//! What carrying a plan out does to a buffer.
//!
//! The crate hands out steps and never sees a block. This module says what
//! the steps amount to for a caller that carries each one out by applying
//! one and the same single-block transform to every block of the step, which
//! is what a batch kernel of a block cipher does.
use vstd::prelude::*;
use crate::cascade::plan;
use crate::cascade::plan_from;
use crate::cascade::narrower;
use crate::cascade::plan_starts_with_batch;
use crate::cascade::plan_starts_with_block;
use crate::cascade::plan_steps_down;
use crate::cascade::Step;
use crate::features::Backend;
use crate::features::Features;

verus! {

/// The buffer after one step: `f` applied to the blocks of the step, the
/// other blocks as they were.
pub open spec fn carry_out<B>(step: Step, f: spec_fn(B) -> B, buf: Seq<B>) -> Seq<B> {
    Seq::new(
        buf.len(),
        |i: int|
            if step.spec_offset() <= i < step.spec_offset() + step.spec_blocks() {
                f(buf[i])
            } else {
                buf[i]
            },
    )
}

/// The buffer after all of `steps`, carried out in order.
pub open spec fn carry_out_all<B>(steps: Seq<Step>, f: spec_fn(B) -> B, buf: Seq<B>) -> Seq<B>
    decreases steps.len(),
{
    if steps.len() == 0 {
        buf
    } else {
        carry_out_all(steps.skip(1), f, carry_out(steps[0], f, buf))
    }
}

/// The buffer with `f` applied to the blocks from `from` up to `to`.
spec fn applied_between<B>(f: spec_fn(B) -> B, buf: Seq<B>, from: nat, to: nat) -> Seq<B> {
    Seq::new(
        buf.len(),
        |i: int|
            if from <= i < to {
                f(buf[i])
            } else {
                buf[i]
            },
    )
}

/// Carrying out the steps for the blocks from `start` on applies `f` to each
/// of those blocks once.
proof fn plan_from_applies_once<B>(
    backend: Backend,
    features: Features,
    start: nat,
    blocks: nat,
    f: spec_fn(B) -> B,
    buf: Seq<B>,
)
    requires
        start + blocks == buf.len(),
        buf.len() <= usize::MAX,
    ensures
        carry_out_all(plan_from(backend, features, start, blocks), f, buf) == applied_between(
            f,
            buf,
            start,
            start + blocks,
        ),
    decreases blocks, backend.spec_rank(),
{
    let steps = plan_from(backend, features, start, blocks);
    let par = backend.spec_par_blocks();
    if blocks == 0 {
        assert(steps.len() == 0);
        assert(buf =~= applied_between(f, buf, start, start));
    } else if blocks >= par {
        plan_starts_with_batch(backend, features, start, blocks);
        let next = carry_out(steps[0], f, buf);
        plan_from_applies_once(backend, features, start + par, (blocks - par) as nat, f, next);
        assert(applied_between(f, next, start + par, start + blocks) =~= applied_between(
            f,
            buf,
            start,
            start + blocks,
        ));
    } else if backend != Backend::Ni {
        plan_steps_down(backend, features, start, blocks);
        plan_from_applies_once(narrower(backend, features), features, start, blocks, f, buf);
    } else {
        plan_starts_with_block(features, start, blocks);
        let next = carry_out(steps[0], f, buf);
        plan_from_applies_once(backend, features, start + 1, (blocks - 1) as nat, f, next);
        assert(applied_between(f, next, start + 1, start + blocks) =~= applied_between(
            f,
            buf,
            start,
            start + blocks,
        ));
    }
}

/// A call transforms every block of its buffer exactly once, whatever
/// backend it starts at and whatever the CPU offers: carrying the plan out
/// block-wise gives the buffer with the transform applied to each block.
pub proof fn plan_applies_once<B>(
    backend: Backend,
    features: Features,
    f: spec_fn(B) -> B,
    buf: Seq<B>,
)
    requires
        buf.len() <= usize::MAX,
    ensures
        carry_out_all(plan(backend, features, buf.len()), f, buf) == buf.map_values(f),
{
    plan_from_applies_once(backend, features, 0, buf.len(), f, buf);
    assert(applied_between(f, buf, 0, buf.len()) =~= buf.map_values(f));
}

/// Two calls on the same buffer give the same result, whichever backends
/// they start at and whatever capabilities they run under: the backend
/// decides how the blocks are batched, not what becomes of them.
pub proof fn backends_agree<B>(
    backend: Backend,
    features: Features,
    other_backend: Backend,
    other_features: Features,
    f: spec_fn(B) -> B,
    buf: Seq<B>,
)
    requires
        buf.len() <= usize::MAX,
    ensures
        carry_out_all(plan(backend, features, buf.len()), f, buf) == carry_out_all(
            plan(other_backend, other_features, buf.len()),
            f,
            buf,
        ),
{
    plan_applies_once(backend, features, f, buf);
    plan_applies_once(other_backend, other_features, f, buf);
}

/// Where `undo` takes back what `transform` does to a single block, a call
/// with `undo` takes back what a call with `transform` did to a buffer, at
/// whichever backends the two calls start.
pub proof fn calls_round_trip<B>(
    backend: Backend,
    features: Features,
    undo_backend: Backend,
    undo_features: Features,
    transform: spec_fn(B) -> B,
    undo: spec_fn(B) -> B,
    buf: Seq<B>,
)
    requires
        buf.len() <= usize::MAX,
        forall|block: B| #[trigger] undo(transform(block)) == block,
    ensures
        carry_out_all(
            plan(undo_backend, undo_features, buf.len()),
            undo,
            carry_out_all(plan(backend, features, buf.len()), transform, buf),
        ) == buf,
{
    let there = carry_out_all(plan(backend, features, buf.len()), transform, buf);
    plan_applies_once(backend, features, transform, buf);
    plan_applies_once(undo_backend, undo_features, undo, there);
    assert(there.map_values(undo) =~= buf);
}

} // verus!

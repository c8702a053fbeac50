//! Splitting a run of blocks into native batches.
//!
//! A call that starts at some backend works through its blocks from the
//! front: whole batches of that backend while they fit, then whole batches of
//! the next backend down, and so on until fewer than nine blocks are left,
//! which go one at a time. [`plan`] says what comes out, [`Cascade`] hands
//! the steps out one by one.
use vstd::prelude::*;
use crate::backend::BackendView;
use crate::backend::BatchKeys;
use crate::backend::Ni;
use crate::backend::Vaes256;
use crate::backend::Vaes512;
use crate::features::Backend;
use crate::features::Features;
use crate::keys::RoundKeys;

verus! {

/// One unit of work: a native batch of some backend, or a single block.
#[derive(Clone, Copy, Debug, PartialEq, Eq, Structural)]
pub enum Step {
    /// One native batch of `backend`, whose first block is block `offset`.
    Par { backend: Backend, offset: usize },
    /// The single block `offset`, which the narrowest backend transforms.
    Block { offset: usize },
}

impl Step {
    /// Index of the first block of the step.
    pub open spec fn spec_offset(self) -> nat {
        match self {
            Step::Par { offset, .. } => offset as nat,
            Step::Block { offset } => offset as nat,
        }
    }

    /// Number of blocks of the step.
    pub open spec fn spec_blocks(self) -> nat {
        match self {
            Step::Par { backend, .. } => backend.spec_par_blocks(),
            Step::Block { .. } => 1,
        }
    }

    /// The backend that carries the step out.
    pub open spec fn spec_backend(self) -> Backend {
        match self {
            Step::Par { backend, .. } => backend,
            Step::Block { .. } => Backend::Ni,
        }
    }

    /// How wide the step is: 0 for a single block, else the rank of the
    /// batch's backend.
    pub open spec fn spec_width(self) -> nat {
        match self {
            Step::Par { backend, .. } => backend.spec_rank(),
            Step::Block { .. } => 0,
        }
    }

    /// Index of the first block of the step.
    pub fn offset(self) -> (offset: usize)
        ensures
            offset == self.spec_offset(),
    {
        match self {
            Step::Par { offset, .. } => offset,
            Step::Block { offset } => offset,
        }
    }

    /// Number of blocks of the step.
    pub fn blocks(self) -> (blocks: usize)
        ensures
            blocks == self.spec_blocks(),
    {
        match self {
            Step::Par { backend, .. } => backend.par_blocks(),
            Step::Block { .. } => 1,
        }
    }

    /// The backend that carries the step out.
    pub fn backend(self) -> (backend: Backend)
        ensures
            backend == self.spec_backend(),
    {
        match self {
            Step::Par { backend, .. } => backend,
            Step::Block { .. } => Backend::Ni,
        }
    }
}

/// How many steps of each kind a run of blocks takes.
pub struct Split {
    /// Batches of 64 blocks on the 512-bit backend.
    pub wide: nat,
    /// Batches of 30 blocks on the 256-bit backend.
    pub mid: nat,
    /// Batches of 9 blocks on the narrowest backend.
    pub narrow: nat,
    /// Blocks that go one at a time.
    pub single: nat,
}

impl Split {
    /// Number of steps.
    pub open spec fn steps(self) -> nat {
        self.wide + self.mid + self.narrow + self.single
    }

    /// Number of blocks that the steps hold together.
    pub open spec fn blocks(self) -> nat {
        64 * self.wide + 30 * self.mid + 9 * self.narrow + self.single
    }

    /// The step with index `i`, where the first block of the run is block
    /// `start`: the batches come widest first, the single blocks last, each
    /// step where the one before it ends.
    pub open spec fn step_at(self, start: nat, i: int) -> Step {
        if i < self.wide {
            Step::Par { backend: Backend::Vaes512, offset: (start + 64 * i) as usize }
        } else if i < self.wide + self.mid {
            Step::Par {
                backend: Backend::Vaes256,
                offset: (start + 64 * self.wide + 30 * (i - self.wide)) as usize,
            }
        } else if i < self.wide + self.mid + self.narrow {
            Step::Par {
                backend: Backend::Ni,
                offset: (start + 64 * self.wide + 30 * self.mid + 9 * (i - self.wide - self.mid)) as usize,
            }
        } else {
            Step::Block {
                offset: (start + 64 * self.wide + 30 * self.mid + 9 * self.narrow + (i - self.wide
                    - self.mid - self.narrow)) as usize,
            }
        }
    }
}

/// Whether a call that starts at `backend` under `features` ever runs batches
/// of the 256-bit backend: it does where it starts there, and where it starts
/// at the 512-bit backend and the 256-bit one may run.
pub open spec fn runs_mid(backend: Backend, features: Features) -> bool {
    backend == Backend::Vaes256 || (backend == Backend::Vaes512 && features.spec_has_vaes256())
}

/// Whether a call that starts at `backend` under `features` may run batches
/// of `batch`.
pub open spec fn may_run(backend: Backend, features: Features, batch: Backend) -> bool {
    match batch {
        Backend::Ni => true,
        Backend::Vaes256 => runs_mid(backend, features),
        Backend::Vaes512 => backend == Backend::Vaes512,
    }
}

/// How `blocks` blocks split up for a call that starts at `backend` under
/// `features`: as many batches of 64 as fit, where the call starts at the
/// 512-bit backend; of the rest as many batches of 30 as fit, where the call
/// runs the 256-bit backend at all; of the rest as many batches of 9 as fit;
/// and what is left, fewer than 9 blocks, one at a time.
pub open spec fn split(backend: Backend, features: Features, blocks: nat) -> Split {
    let wide = if backend == Backend::Vaes512 {
        blocks / 64
    } else {
        0
    };
    let after_wide = blocks - 64 * wide;
    let mid = if runs_mid(backend, features) {
        after_wide / 30
    } else {
        0
    };
    let after_mid = after_wide - 30 * mid;
    Split {
        wide: wide as nat,
        mid: mid as nat,
        narrow: (after_mid / 9) as nat,
        single: (after_mid % 9) as nat,
    }
}

/// The steps of a call that starts at `backend` under `features` on the
/// `blocks` blocks from block `start` on.
pub open spec fn plan_from(backend: Backend, features: Features, start: nat, blocks: nat) -> Seq<
    Step,
> {
    let s = split(backend, features, blocks);
    Seq::new(s.steps(), |i: int| s.step_at(start, i))
}

/// The steps of a call that starts at `backend` under `features` on a buffer
/// of `blocks` blocks.
pub open spec fn plan(backend: Backend, features: Features, blocks: nat) -> Seq<Step> {
    plan_from(backend, features, 0, blocks)
}

/// The backend that a call at `backend` goes on at once no batch of
/// `backend` fits any more: one step down, and at the narrowest backend, which
/// has no step down, that backend itself.
pub open spec fn narrower(backend: Backend, features: Features) -> Backend {
    match backend.spec_narrower(features) {
        Some(down) => down,
        None => Backend::Ni,
    }
}

/// Taking one batch of the starting backend off the front of a run takes one
/// off the count of that backend's batches and leaves the other counts.
proof fn split_after_batch(backend: Backend, features: Features, blocks: nat)
    requires
        blocks >= backend.spec_par_blocks(),
    ensures
        ({
            let s = split(backend, features, blocks);
            let t = split(backend, features, (blocks - backend.spec_par_blocks()) as nat);
            &&& t.single == s.single
            &&& t.narrow + (if backend == Backend::Ni {
                1nat
            } else {
                0nat
            }) == s.narrow
            &&& t.mid + (if backend == Backend::Vaes256 {
                1nat
            } else {
                0nat
            }) == s.mid
            &&& t.wide + (if backend == Backend::Vaes512 {
                1nat
            } else {
                0nat
            }) == s.wide
        }),
{
    let b = blocks as int;
    match backend {
        Backend::Vaes512 => {
            assert((b - 64) / 64 == b / 64 - 1);
        },
        Backend::Vaes256 => {
            assert((b - 30) / 30 == b / 30 - 1);
        },
        Backend::Ni => {
            assert((b - 9) / 9 == b / 9 - 1);
            assert((b - 9) % 9 == b % 9);
        },
    }
}

/// The blocks of a split are the blocks that were split.
proof fn split_adds_up(backend: Backend, features: Features, blocks: nat)
    ensures
        split(backend, features, blocks).blocks() == blocks,
        split(backend, features, blocks).single < 9,
{
}

/// With the first step taken off and the start moved behind it, the steps of
/// a split are the steps of the split that is left.
proof fn step_at_after_first(s: Split, t: Split, start: nat, i: int)
    requires
        s.steps() > 0,
        0 <= i,
        t == (if s.wide > 0 {
            Split { wide: (s.wide - 1) as nat, ..s }
        } else if s.mid > 0 {
            Split { mid: (s.mid - 1) as nat, ..s }
        } else if s.narrow > 0 {
            Split { narrow: (s.narrow - 1) as nat, ..s }
        } else {
            Split { single: (s.single - 1) as nat, ..s }
        }),
    ensures
        t.step_at(start + s.step_at(start, 0).spec_blocks(), i) == s.step_at(start, i + 1),
{
    if s.wide > 0 {
        assert(s.step_at(start, 0).spec_blocks() == 64);
    } else if s.mid > 0 {
        assert(s.step_at(start, 0).spec_blocks() == 30);
    } else if s.narrow > 0 {
        assert(s.step_at(start, 0).spec_blocks() == 9);
    } else {
        assert(s.step_at(start, 0).spec_blocks() == 1);
    }
}

/// A run that still holds a whole batch of its backend starts with that
/// batch and goes on from behind it.
pub(crate) proof fn plan_starts_with_batch(
    backend: Backend,
    features: Features,
    start: nat,
    blocks: nat,
)
    requires
        blocks >= backend.spec_par_blocks(),
        start + blocks <= usize::MAX,
    ensures
        plan_from(backend, features, start, blocks).len() > 0,
        plan_from(backend, features, start, blocks)[0] == (Step::Par {
            backend,
            offset: start as usize,
        }),
        plan_from(backend, features, start, blocks).skip(1) == plan_from(
            backend,
            features,
            start + backend.spec_par_blocks(),
            (blocks - backend.spec_par_blocks()) as nat,
        ),
{
    let par = backend.spec_par_blocks();
    let s = split(backend, features, blocks);
    let t = split(backend, features, (blocks - par) as nat);
    let p = plan_from(backend, features, start, blocks);
    let q = plan_from(backend, features, start + par, (blocks - par) as nat);
    split_after_batch(backend, features, blocks);
    assert(backend != Backend::Vaes512 ==> s.wide == 0);
    assert(backend == Backend::Ni ==> s.mid == 0);
    assert(s.steps() == t.steps() + 1);
    assert(p.len() == s.steps());
    assert(q.len() == t.steps());
    assert(p[0] == s.step_at(start, 0));
    assert(s.step_at(start, 0) == (Step::Par { backend, offset: start as usize }));
    assert(p.skip(1).len() == q.len());
    assert forall|i: int| 0 <= i < q.len() implies p.skip(1)[i] == q[i] by {
        step_at_after_first(s, t, start, i);
        assert(p.skip(1)[i] == p[i + 1]);
        assert(p[i + 1] == s.step_at(start, i + 1));
        assert(q[i] == t.step_at(start + par, i));
    }
    assert(p.skip(1) =~= q);
}

/// A run too short for a batch of its backend goes the way it would have
/// gone had it started one backend down.
pub(crate) proof fn plan_steps_down(backend: Backend, features: Features, start: nat, blocks: nat)
    requires
        blocks < backend.spec_par_blocks(),
    ensures
        plan_from(backend, features, start, blocks) == plan_from(
            narrower(backend, features),
            features,
            start,
            blocks,
        ),
{
    let down = narrower(backend, features);
    let s = split(backend, features, blocks);
    let t = split(down, features, blocks);
    assert(s == t);
    assert(plan_from(backend, features, start, blocks) =~= plan_from(
        down,
        features,
        start,
        blocks,
    ));
}

/// A run that no batch fits in any more starts with its first block alone
/// and goes on from behind it.
pub(crate) proof fn plan_starts_with_block(features: Features, start: nat, blocks: nat)
    requires
        0 < blocks < 9,
        start + blocks <= usize::MAX,
    ensures
        plan_from(Backend::Ni, features, start, blocks).len() > 0,
        plan_from(Backend::Ni, features, start, blocks)[0] == (Step::Block {
            offset: start as usize,
        }),
        plan_from(Backend::Ni, features, start, blocks).skip(1) == plan_from(
            Backend::Ni,
            features,
            start + 1,
            (blocks - 1) as nat,
        ),
{
    let s = split(Backend::Ni, features, blocks);
    let t = split(Backend::Ni, features, (blocks - 1) as nat);
    let p = plan_from(Backend::Ni, features, start, blocks);
    let q = plan_from(Backend::Ni, features, start + 1, (blocks - 1) as nat);
    assert(s.wide == 0 && s.mid == 0 && s.narrow == 0 && s.single == blocks);
    assert(t.wide == 0 && t.mid == 0 && t.narrow == 0 && t.single == blocks - 1);
    assert(p[0] == s.step_at(start, 0));
    assert(s.step_at(start, 0) == (Step::Block { offset: start as usize }));
    assert(p.skip(1).len() == q.len());
    assert forall|i: int| 0 <= i < q.len() implies p.skip(1)[i] == q[i] by {
        step_at_after_first(s, t, start, i);
        assert(p.skip(1)[i] == p[i + 1]);
        assert(p[i + 1] == s.step_at(start, i + 1));
        assert(q[i] == t.step_at(start + 1, i));
    }
    assert(p.skip(1) =~= q);
}

/// The steps tile a buffer: the first starts at block 0, each later one
/// where the one before it ends, and the last ends with the buffer. So the
/// steps hold every block once and no block twice, and there is no step where
/// there is no block.
pub proof fn plan_covers_buffer(backend: Backend, features: Features, blocks: nat)
    requires
        blocks <= usize::MAX,
    ensures
        ({
            let p = plan(backend, features, blocks);
            &&& p.len() == 0 <==> blocks == 0
            &&& p.len() > 0 ==> p[0].spec_offset() == 0
            &&& p.len() > 0 ==> p.last().spec_offset() + p.last().spec_blocks() == blocks
            &&& forall|i: int|
                0 <= i < p.len() - 1 ==> #[trigger] p[i + 1].spec_offset() == p[i].spec_offset()
                    + p[i].spec_blocks()
        }),
{
    let s = split(backend, features, blocks);
    let p = plan(backend, features, blocks);
    split_adds_up(backend, features, blocks);
    if p.len() > 0 {
        assert(p[0] == s.step_at(0, 0));
        assert(p.last() == s.step_at(0, p.len() - 1));
    }
    assert forall|i: int| 0 <= i < p.len() - 1 implies #[trigger] p[i + 1].spec_offset()
        == p[i].spec_offset() + p[i].spec_blocks() by {
        assert(p[i] == s.step_at(0, i));
        assert(p[i + 1] == s.step_at(0, i + 1));
    }
}

/// The steps never widen: every batch of the 512-bit backend comes before
/// every batch of the 256-bit backend, those before every batch of the
/// narrowest, and the single blocks come last.
pub proof fn plan_descends(backend: Backend, features: Features, blocks: nat)
    ensures
        ({
            let p = plan(backend, features, blocks);
            forall|i: int, j: int|
                0 <= i <= j < p.len() ==> (#[trigger] p[i]).spec_width() >= (
                #[trigger] p[j]).spec_width()
        }),
{
    let s = split(backend, features, blocks);
    let p = plan(backend, features, blocks);
    assert forall|i: int, j: int| 0 <= i <= j < p.len() implies (#[trigger] p[i]).spec_width() >= (
    #[trigger] p[j]).spec_width() by {
        assert(p[i] == s.step_at(0, i));
        assert(p[j] == s.step_at(0, j));
    }
}

/// Every step is the widest that the call may take where it stands.
///
/// A batch belongs to a backend that the call may run, it fits into the
/// blocks from its offset on, and no batch of a wider backend that the call
/// may run would have fitted there: the call skips no backend. A single
/// block stands where fewer than nine blocks are left: the call goes block
/// by block only where not even the narrowest batch fits.
pub proof fn plan_is_greedy(backend: Backend, features: Features, blocks: nat, i: int)
    requires
        blocks <= usize::MAX,
        0 <= i < plan(backend, features, blocks).len(),
    ensures
        ({
            let step = plan(backend, features, blocks)[i];
            let left = blocks - step.spec_offset();
            &&& step.spec_blocks() <= left
            &&& step matches Step::Par { backend: batch, .. } ==> may_run(backend, features, batch)
            &&& step is Block ==> left < 9
            &&& forall|wider: Backend|
                #[trigger] may_run(backend, features, wider) && wider.spec_rank()
                    > step.spec_width() ==> left < wider.spec_par_blocks()
        }),
{
    let s = split(backend, features, blocks);
    let step = plan(backend, features, blocks)[i];
    split_adds_up(backend, features, blocks);
    assert(step == s.step_at(0, i));
    let left = blocks - step.spec_offset();
    let after_wide = blocks - 64 * s.wide;
    let after_mid = after_wide - 30 * s.mid;
    assert(backend == Backend::Vaes512 ==> after_wide < 64);
    assert(runs_mid(backend, features) ==> after_mid < 30);
    assert forall|wider: Backend| #[trigger]
        may_run(backend, features, wider) && wider.spec_rank()
            > step.spec_width() implies left < wider.spec_par_blocks() by {
        match wider {
            Backend::Vaes512 => {},
            Backend::Vaes256 => {},
            Backend::Ni => {},
        }
    }
}

/// A call that starts at a backend that the CPU lets run never takes a step
/// that the CPU does not let run.
pub proof fn plan_runs_supported_backends(
    backend: Backend,
    features: Features,
    blocks: nat,
    i: int,
)
    requires
        features.spec_supports(backend),
        0 <= i < plan(backend, features, blocks).len(),
    ensures
        features.spec_supports(plan(backend, features, blocks)[i].spec_backend()),
{
    let s = split(backend, features, blocks);
    assert(plan(backend, features, blocks)[i] == s.step_at(0, i));
}

/// Where the 256-bit backend may not run, a call that starts at the 512-bit
/// backend goes straight on to the narrowest: no step belongs to the 256-bit
/// backend.
pub proof fn plan_skips_ineligible_mid(features: Features, blocks: nat, i: int)
    requires
        !features.spec_has_vaes256(),
        0 <= i < plan(Backend::Vaes512, features, blocks).len(),
    ensures
        plan(Backend::Vaes512, features, blocks)[i].spec_backend() != Backend::Vaes256,
{
    let s = split(Backend::Vaes512, features, blocks);
    assert(plan(Backend::Vaes512, features, blocks)[i] == s.step_at(0, i));
}

/// The blocks of a buffer that a call has not handed out yet: those from
/// `next` up to `end`.
struct Cursor {
    next: usize,
    end: usize,
}

impl Cursor {
    #[verifier::type_invariant]
    spec fn in_range(self) -> bool {
        self.next <= self.end
    }

    spec fn position(self) -> nat {
        self.next as nat
    }

    spec fn left(self) -> nat {
        (self.end - self.next) as nat
    }

    fn new(blocks: usize) -> (cursor: Self)
        ensures
            cursor.position() == 0,
            cursor.left() == blocks,
    {
        Cursor { next: 0, end: blocks }
    }

    fn get_position(&self) -> (position: usize)
        ensures
            position == self.position(),
            position + self.left() <= usize::MAX,
    {
        proof {
            use_type_invariant(self);
        }
        self.next
    }

    fn get_left(&self) -> (left: usize)
        ensures
            left == self.left(),
    {
        proof {
            use_type_invariant(self);
        }
        self.end - self.next
    }

    /// Hands out the next `blocks` blocks and says where they start.
    fn take(&mut self, blocks: usize) -> (offset: usize)
        requires
            blocks <= old(self).left(),
        ensures
            offset == old(self).position(),
            final(self).position() == old(self).position() + blocks,
            final(self).left() == old(self).left() - blocks,
    {
        proof {
            use_type_invariant(&*self);
        }
        let offset: usize = self.next;
        self.next = offset + blocks;
        offset
    }
}

/// A call in progress: the view that the call has come down to, and the
/// blocks that it has not handed out yet.
///
/// [`Cascade::next_step`] hands out the steps of [`plan`] in order. The
/// caller carries each step out before it asks for the next, with the key
/// material that [`Cascade::batch_keys`] or [`Cascade::keys`] gives it.
pub struct Cascade<'a, const N: usize> {
    view: BackendView<'a, N>,
    cursor: Cursor,
}

impl<'a, const N: usize> Cascade<'a, N> {
    /// The view that the call has come down to.
    pub closed spec fn spec_view(&self) -> BackendView<'a, N> {
        self.view
    }

    /// Index of the first block that has not been handed out.
    pub closed spec fn spec_position(&self) -> nat {
        self.cursor.position()
    }

    /// Number of blocks that have not been handed out.
    pub closed spec fn spec_blocks_left(&self) -> nat {
        self.cursor.left()
    }

    /// The steps that have not been handed out, in order.
    pub open spec fn spec_steps_left(&self) -> Seq<Step> {
        plan_from(
            self.spec_view().spec_backend(),
            self.spec_view().spec_features(),
            self.spec_position(),
            self.spec_blocks_left(),
        )
    }

    /// Starts a call with `view` on a buffer of `blocks` blocks.
    pub fn new(view: BackendView<'a, N>, blocks: usize) -> (cascade: Self)
        ensures
            cascade.spec_view() == view,
            cascade.spec_position() == 0,
            cascade.spec_blocks_left() == blocks,
            cascade.spec_steps_left() == plan(
                view.spec_backend(),
                view.spec_features(),
                blocks as nat,
            ),
    {
        Cascade { view, cursor: Cursor::new(blocks) }
    }

    /// The view that the call has come down to.
    pub fn view(&self) -> (view: &BackendView<'a, N>)
        ensures
            *view == self.spec_view(),
    {
        &self.view
    }

    /// Index of the first block that has not been handed out.
    pub fn position(&self) -> (position: usize)
        ensures
            position == self.spec_position(),
    {
        self.cursor.get_position()
    }

    /// Number of blocks that have not been handed out.
    pub fn blocks_left(&self) -> (blocks: usize)
        ensures
            blocks == self.spec_blocks_left(),
    {
        self.cursor.get_left()
    }

    /// The round keys, which a single block reads.
    pub fn keys(&self) -> (keys: &'a RoundKeys<N>)
        ensures
            keys == self.spec_view().spec_keys(),
    {
        self.view.keys()
    }

    /// The key material for a batch of the backend that the call has come
    /// down to. A wide view makes its replica on the first call and keeps it
    /// for as long as the call stays at that backend.
    pub fn batch_keys(&mut self) -> (keys: BatchKeys<'_, N>)
        ensures
            keys.spec_backend() == old(self).spec_view().spec_backend(),
            keys.spec_lanes() == crate::backend::replicated(
                old(self).spec_view().spec_keys()@,
                old(self).spec_view().spec_backend().spec_lanes(),
            ),
            final(self).spec_view().spec_backend() == old(self).spec_view().spec_backend(),
            final(self).spec_view().spec_features() == old(self).spec_view().spec_features(),
            final(self).spec_view().spec_keys() == old(self).spec_view().spec_keys(),
            final(self).spec_view().spec_is_broadcast() == (old(self).spec_view().spec_backend()
                != Backend::Ni),
            old(self).spec_view().spec_is_broadcast() || old(self).spec_view().spec_backend()
                == Backend::Ni ==> final(self).spec_view() == old(self).spec_view(),
            final(self).spec_position() == old(self).spec_position(),
            final(self).spec_blocks_left() == old(self).spec_blocks_left(),
    {
        self.view.batch_keys()
    }

    /// Hands out the next step, or `None` once every block has been handed
    /// out.
    ///
    /// The step is a batch of the current backend if one still fits. If none
    /// fits, the call steps down one backend, to a fresh view over the same
    /// round keys, and tries again; below the narrowest backend the step is
    /// a single block. After the call the cascade's view is the view that
    /// carries the step out.
    pub fn next_step(&mut self) -> (step: Option<Step>)
        ensures
            step is Some <==> old(self).spec_blocks_left() > 0,
            step is None ==> *final(self) == *old(self),
            step matches Some(s) ==> {
                &&& old(self).spec_steps_left().len() > 0
                &&& s == old(self).spec_steps_left()[0]
                &&& final(self).spec_steps_left() == old(self).spec_steps_left().skip(1)
                &&& s.spec_offset() == old(self).spec_position()
                &&& final(self).spec_position() == old(self).spec_position() + s.spec_blocks()
                &&& final(self).spec_blocks_left() + s.spec_blocks()
                    == old(self).spec_blocks_left()
                &&& final(self).spec_view().spec_backend() == s.spec_backend()
                &&& final(self).spec_view().spec_features() == old(self).spec_view().spec_features()
                &&& final(self).spec_view().spec_keys() == old(self).spec_view().spec_keys()
                &&& if s.spec_backend() == old(self).spec_view().spec_backend() {
                    final(self).spec_view() == old(self).spec_view()
                } else {
                    !final(self).spec_view().spec_is_broadcast()
                }
            },
    {
        let left: usize = self.cursor.get_left();
        if left == 0 {
            return None;
        }
        let ghost features = self.view.spec_features();
        let ghost start = self.cursor.position();
        let ghost steps = self.spec_steps_left();
        let _: usize = self.cursor.get_position();
        loop
            invariant
                self.cursor == old(self).cursor,
                left == self.cursor.left(),
                left > 0,
                start == self.cursor.position(),
                start + left <= usize::MAX,
                self.view.spec_features() == features,
                features == old(self).spec_view().spec_features(),
                self.view.spec_keys() == old(self).spec_view().spec_keys(),
                steps == old(self).spec_steps_left(),
                steps == plan_from(self.view.spec_backend(), features, start, left as nat),
                self.view.spec_backend().spec_rank()
                    <= old(self).spec_view().spec_backend().spec_rank(),
                if self.view.spec_backend() == old(self).spec_view().spec_backend() {
                    self.view == old(self).spec_view()
                } else {
                    !self.view.spec_is_broadcast()
                },
            decreases self.view.spec_backend().spec_rank(),
        {
            let backend = self.view.backend();
            let par: usize = backend.par_blocks();
            if left >= par {
                proof {
                    plan_starts_with_batch(backend, features, start, left as nat);
                }
                let offset: usize = self.cursor.take(par);
                return Some(Step::Par { backend, offset });
            }
            proof {
                plan_steps_down(backend, features, start, left as nat);
            }
            match self.view.narrow_view() {
                Some(view) => {
                    self.view = view;
                },
                None => {
                    proof {
                        plan_starts_with_block(features, start, left as nat);
                    }
                    let offset: usize = self.cursor.take(1);
                    return Some(Step::Block { offset });
                },
            }
        }
    }

    /// Runs the call to its end and gives the steps that were still to
    /// come, in order.
    pub fn collect(self) -> (steps: Vec<Step>)
        ensures
            steps@ == self.spec_steps_left(),
    {
        let mut cascade = self;
        let mut steps: Vec<Step> = Vec::new();
        loop
            invariant
                self.spec_steps_left() == steps@ + cascade.spec_steps_left(),
            ensures
                steps@ == self.spec_steps_left(),
            decreases cascade.spec_blocks_left(),
        {
            let ghost before = cascade.spec_steps_left();
            match cascade.next_step() {
                Some(step) => {
                    steps.push(step);
                    assert(before == seq![step] + cascade.spec_steps_left());
                },
                None => {
                    assert(before.len() == 0);
                    break ;
                },
            }
        }
        steps
    }
}

impl<'a, const N: usize> Ni<'a, N> {
    /// Starts the work on the `blocks` blocks that are left over once the
    /// view has had its whole batches. At the narrowest backend there is no
    /// way down: the blocks go as any run at this backend goes, which for
    /// fewer than nine of them is one at a time.
    pub fn tail_blocks(&self, blocks: usize) -> (cascade: Cascade<'a, N>)
        ensures
            cascade.spec_view() == BackendView::Ni(*self),
            cascade.spec_position() == 0,
            cascade.spec_blocks_left() == blocks,
            cascade.spec_steps_left() == plan(Backend::Ni, self.spec_features(), blocks as nat),
    {
        Cascade::new(BackendView::Ni(self.clone()), blocks)
    }
}

impl<'a, const N: usize> Vaes256<'a, N> {
    /// Starts the work on the `blocks` blocks that are left over once the
    /// view has had its whole batches: it goes on at the narrowest backend,
    /// over the same round keys. For fewer than 30 blocks that is how a run
    /// at the view's own backend goes.
    pub fn tail_blocks(&self, blocks: usize) -> (cascade: Cascade<'a, N>)
        ensures
            cascade.spec_view().spec_direct(Backend::Ni, self.spec_features(), self.spec_keys()),
            cascade.spec_position() == 0,
            cascade.spec_blocks_left() == blocks,
            cascade.spec_steps_left() == plan(Backend::Ni, self.spec_features(), blocks as nat),
            blocks < 30 ==> cascade.spec_steps_left() == plan(
                Backend::Vaes256,
                self.spec_features(),
                blocks as nat,
            ),
    {
        proof {
            if blocks < 30 {
                plan_steps_down(Backend::Vaes256, self.spec_features(), 0, blocks as nat);
            }
        }
        Cascade::new(BackendView::Ni(self.narrow_view()), blocks)
    }
}

impl<'a, const N: usize> Vaes512<'a, N> {
    /// Starts the work on the `blocks` blocks that are left over once the
    /// view has had its whole batches: it goes on one backend down, at the
    /// 256-bit backend where that may run and at the narrowest where it may
    /// not, over the same round keys. For fewer than 64 blocks that is how a
    /// run at the view's own backend goes.
    pub fn tail_blocks(&self, blocks: usize) -> (cascade: Cascade<'a, N>)
        ensures
            self.spec_narrow_view(cascade.spec_view()),
            cascade.spec_position() == 0,
            cascade.spec_blocks_left() == blocks,
            cascade.spec_steps_left() == plan(
                narrower(Backend::Vaes512, self.spec_features()),
                self.spec_features(),
                blocks as nat,
            ),
            blocks < 64 ==> cascade.spec_steps_left() == plan(
                Backend::Vaes512,
                self.spec_features(),
                blocks as nat,
            ),
    {
        proof {
            if blocks < 64 {
                plan_steps_down(Backend::Vaes512, self.spec_features(), 0, blocks as nat);
            }
        }
        Cascade::new(self.narrow_view(), blocks)
    }
}

impl<'a, const N: usize> BackendView<'a, N> {
    /// Starts the work on the `blocks` blocks that are left over once the
    /// view has had its whole batches: it goes on one backend down where
    /// there is one, over the same round keys. For fewer blocks than a
    /// batch of the view holds that is how a run at the view's own backend
    /// goes.
    pub fn tail_blocks(&self, blocks: usize) -> (cascade: Cascade<'a, N>)
        ensures
            cascade.spec_view().spec_backend() == narrower(
                self.spec_backend(),
                self.spec_features(),
            ),
            cascade.spec_view().spec_features() == self.spec_features(),
            cascade.spec_view().spec_keys() == self.spec_keys(),
            !cascade.spec_view().spec_is_broadcast(),
            cascade.spec_position() == 0,
            cascade.spec_blocks_left() == blocks,
            cascade.spec_steps_left() == plan(
                narrower(self.spec_backend(), self.spec_features()),
                self.spec_features(),
                blocks as nat,
            ),
            blocks < self.spec_backend().spec_par_blocks() ==> cascade.spec_steps_left() == plan(
                self.spec_backend(),
                self.spec_features(),
                blocks as nat,
            ),
    {
        match self {
            BackendView::Ni(v) => v.tail_blocks(blocks),
            BackendView::Vaes256(v) => v.tail_blocks(blocks),
            BackendView::Vaes512(v) => v.tail_blocks(blocks),
        }
    }
}

} // verus!

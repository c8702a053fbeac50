//! Call-scoped views of a round-key store, one type per backend.
//!
//! A view borrows the round keys of a cipher object for the length of one
//! call. The two wide backends read the round keys from registers that hold
//! one copy per 128-bit lane; a wide view makes that replica the first time a
//! batch asks for it and keeps it until the view goes away.
use vstd::prelude::*;
use crate::error::Error;
use crate::features::Backend;
use crate::features::Features;
use crate::keys::RoundKeys;

verus! {

/// What a register file of `lanes` lanes holds once the round keys `keys`
/// have been replicated into it: one register per round key, every lane of
/// which is that round key.
pub open spec fn replicated(keys: Seq<u128>, lanes: nat) -> Seq<Seq<u128>> {
    Seq::new(keys.len(), |i: int| Seq::new(lanes, |j: int| keys[i]))
}

/// The lanes of each register of `regs`, as plain sequences.
pub open spec fn lanes_of<const N: usize, const L: usize>(regs: [[u128; L]; N]) -> Seq<Seq<u128>> {
    Seq::new(N as nat, |i: int| regs@[i]@)
}

/// Replicates each round key into the `L` lanes of a register of its own.
pub fn broadcast_keys<const N: usize, const L: usize>(keys: &[u128; N]) -> (regs: [[u128; L]; N])
    ensures
        lanes_of(regs) == replicated(keys@, L as nat),
{
    let mut regs = [[0u128; L]; N];
    let mut i: usize = 0;
    while i < N
        invariant
            i <= N,
            forall|r: int, j: int| 0 <= r < i && 0 <= j < L ==> regs@[r]@[j] == keys@[r],
        decreases N - i,
    {
        regs[i] = [keys[i]; L];
        i += 1;
    }
    assert(lanes_of(regs) =~~= replicated(keys@, L as nat));
    regs
}

/// The view of the narrowest backend: the round keys as they are.
pub struct Ni<'a, const N: usize> {
    features: Features,
    keys: &'a RoundKeys<N>,
}

impl<'a, const N: usize> Ni<'a, N> {
    #[verifier::type_invariant]
    spec fn confirmed(self) -> bool {
        self.features.spec_supports(Backend::Ni)
    }

    /// The CPU capabilities that the view was made under.
    pub closed spec fn spec_features(&self) -> Features {
        self.features
    }

    /// The store that the view borrows.
    pub closed spec fn spec_keys(&self) -> &'a RoundKeys<N> {
        self.keys
    }

    /// A view of `keys` for a CPU with `features`, or `None` where AES-NI is
    /// missing.
    pub fn new(features: Features, keys: &'a RoundKeys<N>) -> (view: Option<Self>)
        ensures
            view is Some <==> features.spec_supports(Backend::Ni),
            view matches Some(v) ==> v.spec_features() == features && v.spec_keys() == keys,
    {
        if features.supports(Backend::Ni) {
            Some(Ni { features, keys })
        } else {
            None
        }
    }

    /// The CPU capabilities that the view was made under. They let the
    /// backend run, as they do for every view there is.
    pub fn features(&self) -> (features: Features)
        ensures
            features == self.spec_features(),
            features.spec_supports(Backend::Ni),
    {
        proof {
            use_type_invariant(self);
        }
        self.features
    }

    /// The store that the view borrows.
    pub fn keys(&self) -> (keys: &'a RoundKeys<N>)
        ensures
            keys == self.spec_keys(),
    {
        self.keys
    }

    /// Number of blocks in a native batch: 9.
    pub fn par_blocks(&self) -> (n: usize)
        ensures
            n == Backend::Ni.spec_par_blocks(),
    {
        Backend::Ni.par_blocks()
    }
}

impl<'a, const N: usize> Clone for Ni<'a, N> {
    /// A second view over the same store.
    fn clone(&self) -> (copy: Self)
        ensures
            copy == *self,
    {
        proof {
            use_type_invariant(self);
        }
        Ni { features: self.features, keys: self.keys }
    }
}

/// The view of the 256-bit backend: the round keys and, once a batch has
/// asked for it, their two-lane replica.
pub struct Vaes256<'a, const N: usize> {
    features: Features,
    keys: &'a RoundKeys<N>,
    simd_256_keys: Option<[[u128; 2]; N]>,
}

impl<'a, const N: usize> Vaes256<'a, N> {
    #[verifier::type_invariant]
    spec fn confirmed(self) -> bool {
        &&& self.features.spec_supports(Backend::Vaes256)
        &&& self.simd_256_keys matches Some(regs) ==> lanes_of(regs) == replicated(self.keys@, 2)
    }

    /// The CPU capabilities that the view was made under.
    pub closed spec fn spec_features(&self) -> Features {
        self.features
    }

    /// The store that the view borrows.
    pub closed spec fn spec_keys(&self) -> &'a RoundKeys<N> {
        self.keys
    }

    /// The replica that the view holds, if it has made one.
    pub closed spec fn spec_simd_256_keys(&self) -> Option<[[u128; 2]; N]> {
        self.simd_256_keys
    }

    /// A view of `keys` for a CPU with `features`, without a replica yet, or
    /// `None` where the 256-bit backend may not run.
    pub fn new(features: Features, keys: &'a RoundKeys<N>) -> (view: Option<Self>)
        ensures
            view is Some <==> features.spec_supports(Backend::Vaes256),
            view matches Some(v) ==> v.spec_features() == features && v.spec_keys() == keys
                && v.spec_simd_256_keys() is None,
    {
        if features.supports(Backend::Vaes256) {
            Some(Vaes256 { features, keys, simd_256_keys: None })
        } else {
            None
        }
    }

    /// The CPU capabilities that the view was made under. They let the
    /// backend run, as they do for every view there is.
    pub fn features(&self) -> (features: Features)
        ensures
            features == self.spec_features(),
            features.spec_supports(Backend::Vaes256),
    {
        proof {
            use_type_invariant(self);
        }
        self.features
    }

    /// The store that the view borrows.
    pub fn keys(&self) -> (keys: &'a RoundKeys<N>)
        ensures
            keys == self.spec_keys(),
    {
        self.keys
    }

    /// Number of blocks in a native batch: 30.
    pub fn par_blocks(&self) -> (n: usize)
        ensures
            n == Backend::Vaes256.spec_par_blocks(),
    {
        Backend::Vaes256.par_blocks()
    }

    /// Whether the view holds the replica already.
    pub fn is_broadcast(&self) -> (made: bool)
        ensures
            made == self.spec_simd_256_keys() is Some,
    {
        self.simd_256_keys.is_some()
    }

    /// The two-lane replica of the round keys. The first call makes it; later
    /// calls hand out the one that is there and change nothing.
    pub fn simd_256_keys(&mut self) -> (regs: &[[u128; 2]; N])
        ensures
            lanes_of(*regs) == replicated(old(self).spec_keys()@, 2),
            final(self).spec_simd_256_keys() == Some(*regs),
            final(self).spec_features() == old(self).spec_features(),
            final(self).spec_keys() == old(self).spec_keys(),
            old(self).spec_simd_256_keys() is Some ==> *final(self) == *old(self),
    {
        proof {
            use_type_invariant(&*self);
        }
        if self.simd_256_keys.is_none() {
            let regs: [[u128; 2]; N] = broadcast_keys(self.keys.as_array());
            self.simd_256_keys = Some(regs);
        }
        self.simd_256_keys.as_ref().unwrap()
    }

    /// The view of the narrowest backend over the same store. The round keys
    /// are borrowed again, not derived again.
    pub fn narrow_view(&self) -> (view: Ni<'a, N>)
        ensures
            view.spec_features() == self.spec_features(),
            view.spec_keys() == self.spec_keys(),
    {
        proof {
            use_type_invariant(self);
        }
        Ni { features: self.features, keys: self.keys }
    }
}

impl<'a, const N: usize> Clone for Vaes256<'a, N> {
    /// A second view over the same store, with the replica if there is one.
    fn clone(&self) -> (copy: Self)
        ensures
            copy == *self,
    {
        proof {
            use_type_invariant(self);
        }
        Vaes256 { features: self.features, keys: self.keys, simd_256_keys: self.simd_256_keys }
    }
}

/// The view of the 512-bit backend: the round keys and, once a batch has
/// asked for it, their four-lane replica.
pub struct Vaes512<'a, const N: usize> {
    features: Features,
    keys: &'a RoundKeys<N>,
    simd_512_keys: Option<[[u128; 4]; N]>,
}

impl<'a, const N: usize> Vaes512<'a, N> {
    #[verifier::type_invariant]
    spec fn confirmed(self) -> bool {
        &&& self.features.spec_supports(Backend::Vaes512)
        &&& self.simd_512_keys matches Some(regs) ==> lanes_of(regs) == replicated(self.keys@, 4)
    }

    /// The CPU capabilities that the view was made under.
    pub closed spec fn spec_features(&self) -> Features {
        self.features
    }

    /// The store that the view borrows.
    pub closed spec fn spec_keys(&self) -> &'a RoundKeys<N> {
        self.keys
    }

    /// The replica that the view holds, if it has made one.
    pub closed spec fn spec_simd_512_keys(&self) -> Option<[[u128; 4]; N]> {
        self.simd_512_keys
    }

    /// The view one backend down: the 256-bit backend where it may run, else
    /// the narrowest. Either way a view over the same store that has made no
    /// replica yet.
    pub open spec fn spec_narrow_view(&self, view: BackendView<'a, N>) -> bool {
        &&& view.spec_features() == self.spec_features()
        &&& view.spec_keys() == self.spec_keys()
        &&& !view.spec_is_broadcast()
        &&& Some(view.spec_backend()) == Backend::Vaes512.spec_narrower(self.spec_features())
    }

    /// A view of `keys` for a CPU with `features`, without a replica yet, or
    /// `None` where the 512-bit backend may not run.
    pub fn new(features: Features, keys: &'a RoundKeys<N>) -> (view: Option<Self>)
        ensures
            view is Some <==> features.spec_supports(Backend::Vaes512),
            view matches Some(v) ==> v.spec_features() == features && v.spec_keys() == keys
                && v.spec_simd_512_keys() is None,
    {
        if features.supports(Backend::Vaes512) {
            Some(Vaes512 { features, keys, simd_512_keys: None })
        } else {
            None
        }
    }

    /// The CPU capabilities that the view was made under. They let the
    /// backend run, as they do for every view there is.
    pub fn features(&self) -> (features: Features)
        ensures
            features == self.spec_features(),
            features.spec_supports(Backend::Vaes512),
    {
        proof {
            use_type_invariant(self);
        }
        self.features
    }

    /// The store that the view borrows.
    pub fn keys(&self) -> (keys: &'a RoundKeys<N>)
        ensures
            keys == self.spec_keys(),
    {
        self.keys
    }

    /// Number of blocks in a native batch: 64.
    pub fn par_blocks(&self) -> (n: usize)
        ensures
            n == Backend::Vaes512.spec_par_blocks(),
    {
        Backend::Vaes512.par_blocks()
    }

    /// Whether the view holds the replica already.
    pub fn is_broadcast(&self) -> (made: bool)
        ensures
            made == self.spec_simd_512_keys() is Some,
    {
        self.simd_512_keys.is_some()
    }

    /// The four-lane replica of the round keys. The first call makes it;
    /// later calls hand out the one that is there and change nothing.
    pub fn simd_512_keys(&mut self) -> (regs: &[[u128; 4]; N])
        ensures
            lanes_of(*regs) == replicated(old(self).spec_keys()@, 4),
            final(self).spec_simd_512_keys() == Some(*regs),
            final(self).spec_features() == old(self).spec_features(),
            final(self).spec_keys() == old(self).spec_keys(),
            old(self).spec_simd_512_keys() is Some ==> *final(self) == *old(self),
    {
        proof {
            use_type_invariant(&*self);
        }
        if self.simd_512_keys.is_none() {
            let regs: [[u128; 4]; N] = broadcast_keys(self.keys.as_array());
            self.simd_512_keys = Some(regs);
        }
        self.simd_512_keys.as_ref().unwrap()
    }

    /// The view one backend down over the same store: of the 256-bit backend
    /// where it may run under the view's capabilities, else of the narrowest.
    /// The round keys are borrowed again, not derived again, and the new view
    /// has made no replica.
    pub fn narrow_view(&self) -> (view: BackendView<'a, N>)
        ensures
            self.spec_narrow_view(view),
    {
        proof {
            use_type_invariant(self);
        }
        match Backend::Vaes512.narrower(self.features) {
            Some(Backend::Vaes256) => BackendView::Vaes256(
                Vaes256 { features: self.features, keys: self.keys, simd_256_keys: None },
            ),
            _ => BackendView::Ni(Ni { features: self.features, keys: self.keys }),
        }
    }
}

impl<'a, const N: usize> Clone for Vaes512<'a, N> {
    /// A second view over the same store, with the replica if there is one.
    fn clone(&self) -> (copy: Self)
        ensures
            copy == *self,
    {
        proof {
            use_type_invariant(self);
        }
        Vaes512 { features: self.features, keys: self.keys, simd_512_keys: self.simd_512_keys }
    }
}

/// The key material that a native batch reads, in the form that the batch's
/// backend takes.
pub enum BatchKeys<'v, const N: usize> {
    /// The round keys themselves.
    Ni(&'v [u128; N]),
    /// Their two-lane replica.
    Vaes256(&'v [[u128; 2]; N]),
    /// Their four-lane replica.
    Vaes512(&'v [[u128; 4]; N]),
}

impl<'v, const N: usize> BatchKeys<'v, N> {
    /// The backend that takes this form.
    pub open spec fn spec_backend(&self) -> Backend {
        match self {
            BatchKeys::Ni(_) => Backend::Ni,
            BatchKeys::Vaes256(_) => Backend::Vaes256,
            BatchKeys::Vaes512(_) => Backend::Vaes512,
        }
    }

    /// One sequence of lanes per register.
    pub open spec fn spec_lanes(&self) -> Seq<Seq<u128>> {
        match self {
            BatchKeys::Ni(words) => Seq::new(N as nat, |i: int| seq![words@[i]]),
            BatchKeys::Vaes256(regs) => lanes_of(**regs),
            BatchKeys::Vaes512(regs) => lanes_of(**regs),
        }
    }
}

/// A view of any of the three backends.
pub enum BackendView<'a, const N: usize> {
    /// The narrowest backend.
    Ni(Ni<'a, N>),
    /// The 256-bit backend.
    Vaes256(Vaes256<'a, N>),
    /// The 512-bit backend.
    Vaes512(Vaes512<'a, N>),
}

impl<'a, const N: usize> BackendView<'a, N> {
    /// The backend that the view belongs to.
    pub open spec fn spec_backend(&self) -> Backend {
        match self {
            BackendView::Ni(_) => Backend::Ni,
            BackendView::Vaes256(_) => Backend::Vaes256,
            BackendView::Vaes512(_) => Backend::Vaes512,
        }
    }

    /// The CPU capabilities that the view was made under.
    pub open spec fn spec_features(&self) -> Features {
        match self {
            BackendView::Ni(v) => v.spec_features(),
            BackendView::Vaes256(v) => v.spec_features(),
            BackendView::Vaes512(v) => v.spec_features(),
        }
    }

    /// The store that the view borrows.
    pub open spec fn spec_keys(&self) -> &'a RoundKeys<N> {
        match self {
            BackendView::Ni(v) => v.spec_keys(),
            BackendView::Vaes256(v) => v.spec_keys(),
            BackendView::Vaes512(v) => v.spec_keys(),
        }
    }

    /// Whether the view holds a replica of its round keys.
    pub open spec fn spec_is_broadcast(&self) -> bool {
        match self {
            BackendView::Ni(_) => false,
            BackendView::Vaes256(v) => v.spec_simd_256_keys() is Some,
            BackendView::Vaes512(v) => v.spec_simd_512_keys() is Some,
        }
    }

    /// A view at `backend` that was made directly from `keys` under
    /// `features`: it has made no replica yet.
    pub open spec fn spec_direct(
        &self,
        backend: Backend,
        features: Features,
        keys: &'a RoundKeys<N>,
    ) -> bool {
        &&& self.spec_backend() == backend
        &&& self.spec_features() == features
        &&& self.spec_keys() == keys
        &&& !self.spec_is_broadcast()
    }

    /// A view of `keys` at `backend` for a CPU with `features`, without a
    /// replica yet, or `None` where that backend may not run.
    pub fn new(backend: Backend, features: Features, keys: &'a RoundKeys<N>) -> (view: Option<Self>)
        ensures
            view is Some <==> features.spec_supports(backend),
            view matches Some(v) ==> v.spec_direct(backend, features, keys),
    {
        match backend {
            Backend::Ni => match Ni::new(features, keys) {
                Some(v) => Some(BackendView::Ni(v)),
                None => None,
            },
            Backend::Vaes256 => match Vaes256::new(features, keys) {
                Some(v) => Some(BackendView::Vaes256(v)),
                None => None,
            },
            Backend::Vaes512 => match Vaes512::new(features, keys) {
                Some(v) => Some(BackendView::Vaes512(v)),
                None => None,
            },
        }
    }

    /// The view of `keys` at the backend that `features` select.
    pub(crate) fn dispatched(features: Features, keys: &'a RoundKeys<N>) -> (view: Self)
        requires
            features.aes,
        ensures
            view.spec_direct(features.spec_dispatch(), features, keys),
    {
        match features.dispatch() {
            Backend::Ni => BackendView::Ni(Ni { features, keys }),
            Backend::Vaes256 => BackendView::Vaes256(
                Vaes256 { features, keys, simd_256_keys: None },
            ),
            Backend::Vaes512 => BackendView::Vaes512(
                Vaes512 { features, keys, simd_512_keys: None },
            ),
        }
    }

    /// The backend that the view belongs to.
    pub fn backend(&self) -> (backend: Backend)
        ensures
            backend == self.spec_backend(),
    {
        match self {
            BackendView::Ni(_) => Backend::Ni,
            BackendView::Vaes256(_) => Backend::Vaes256,
            BackendView::Vaes512(_) => Backend::Vaes512,
        }
    }

    /// The CPU capabilities that the view was made under. They let the
    /// view's backend run, as they do for every view there is.
    pub fn features(&self) -> (features: Features)
        ensures
            features == self.spec_features(),
            features.spec_supports(self.spec_backend()),
    {
        match self {
            BackendView::Ni(v) => v.features(),
            BackendView::Vaes256(v) => v.features(),
            BackendView::Vaes512(v) => v.features(),
        }
    }

    /// The store that the view borrows.
    pub fn keys(&self) -> (keys: &'a RoundKeys<N>)
        ensures
            keys == self.spec_keys(),
    {
        match self {
            BackendView::Ni(v) => v.keys(),
            BackendView::Vaes256(v) => v.keys(),
            BackendView::Vaes512(v) => v.keys(),
        }
    }

    /// Number of blocks in a native batch of the view's backend.
    pub fn par_blocks(&self) -> (n: usize)
        ensures
            n == self.spec_backend().spec_par_blocks(),
    {
        match self {
            BackendView::Ni(v) => v.par_blocks(),
            BackendView::Vaes256(v) => v.par_blocks(),
            BackendView::Vaes512(v) => v.par_blocks(),
        }
    }

    /// Whether the view holds a replica of its round keys.
    pub fn is_broadcast(&self) -> (made: bool)
        ensures
            made == self.spec_is_broadcast(),
    {
        match self {
            BackendView::Ni(_) => false,
            BackendView::Vaes256(v) => v.is_broadcast(),
            BackendView::Vaes512(v) => v.is_broadcast(),
        }
    }

    /// The key material for a native batch of the view's backend: the round
    /// keys for the narrowest, their replica for a wide one. A wide view
    /// makes the replica on the first call and keeps it.
    pub fn batch_keys(&mut self) -> (keys: BatchKeys<'_, N>)
        ensures
            keys.spec_backend() == old(self).spec_backend(),
            keys.spec_lanes() == replicated(
                old(self).spec_keys()@,
                old(self).spec_backend().spec_lanes(),
            ),
            final(self).spec_backend() == old(self).spec_backend(),
            final(self).spec_features() == old(self).spec_features(),
            final(self).spec_keys() == old(self).spec_keys(),
            final(self).spec_is_broadcast() == (old(self).spec_backend() != Backend::Ni),
            old(self).spec_is_broadcast() || old(self).spec_backend() == Backend::Ni
                ==> *final(self) == *old(self),
    {
        match self {
            BackendView::Ni(v) => {
                let words = v.keys().as_array();
                assert(Seq::new(N as nat, |i: int| seq![words@[i]]) =~~= replicated(
                    v.spec_keys()@,
                    1,
                ));
                BatchKeys::Ni(words)
            },
            BackendView::Vaes256(v) => BatchKeys::Vaes256(v.simd_256_keys()),
            BackendView::Vaes512(v) => BatchKeys::Vaes512(v.simd_512_keys()),
        }
    }

    /// The key material for a batch of `blocks` blocks, which has to be a
    /// native batch of the view's backend: any other length is refused, and
    /// the view stays as it was.
    pub fn batch_keys_for(&mut self, blocks: usize) -> (keys: Result<BatchKeys<'_, N>, Error>)
        ensures
            keys is Ok <==> blocks == old(self).spec_backend().spec_par_blocks(),
            keys matches Err(error) ==> error == Error::BatchLength && *final(self) == *old(self),
            keys matches Ok(k) ==> {
                &&& k.spec_backend() == old(self).spec_backend()
                &&& k.spec_lanes() == replicated(
                    old(self).spec_keys()@,
                    old(self).spec_backend().spec_lanes(),
                )
                &&& final(self).spec_backend() == old(self).spec_backend()
                &&& final(self).spec_features() == old(self).spec_features()
                &&& final(self).spec_keys() == old(self).spec_keys()
                &&& final(self).spec_is_broadcast() == (old(self).spec_backend() != Backend::Ni)
                &&& old(self).spec_is_broadcast() || old(self).spec_backend() == Backend::Ni
                    ==> *final(self) == *old(self)
            },
    {
        if blocks == self.par_blocks() {
            Ok(self.batch_keys())
        } else {
            Err(Error::BatchLength)
        }
    }

    /// The view one backend down over the same store, or `None` for the
    /// narrowest backend. The round keys are borrowed again, not derived
    /// again; the new view has made no replica. From the 512-bit backend the
    /// step goes to the 256-bit backend where that may run under the view's
    /// capabilities, else straight to the narrowest.
    pub fn narrow_view(&self) -> (view: Option<Self>)
        ensures
            view is Some <==> self.spec_backend() != Backend::Ni,
            view matches Some(v) ==> Some(v.spec_backend()) == self.spec_backend().spec_narrower(
                self.spec_features(),
            ) && v.spec_direct(v.spec_backend(), self.spec_features(), self.spec_keys()),
    {
        match self {
            BackendView::Ni(_) => None,
            BackendView::Vaes256(v) => Some(BackendView::Ni(v.narrow_view())),
            BackendView::Vaes512(v) => Some(v.narrow_view()),
        }
    }
}

impl<'a, const N: usize> Clone for BackendView<'a, N> {
    /// A second view over the same store, with the replica if there is one.
    fn clone(&self) -> (copy: Self)
        ensures
            copy == *self,
    {
        match self {
            BackendView::Ni(v) => BackendView::Ni(v.clone()),
            BackendView::Vaes256(v) => BackendView::Vaes256(v.clone()),
            BackendView::Vaes512(v) => BackendView::Vaes512(v.clone()),
        }
    }
}

/// Narrowing is as good as starting narrow.
///
/// A view that came out of [`BackendView::narrow_view`] and a view that was
/// made directly at the same backend, under the same capabilities and over
/// the same store, are equal. So whatever a transform reads from the one it
/// reads from the other, and it gives the same output on the same block.
pub proof fn narrowed_view_is_direct_view<'a, const N: usize, B>(
    wider: BackendView<'a, N>,
    narrowed: BackendView<'a, N>,
    direct: BackendView<'a, N>,
    transform: spec_fn(BackendView<'a, N>, B) -> B,
    block: B,
)
    requires
        Some(narrowed.spec_backend()) == wider.spec_backend().spec_narrower(wider.spec_features()),
        narrowed.spec_direct(narrowed.spec_backend(), wider.spec_features(), wider.spec_keys()),
        direct.spec_direct(narrowed.spec_backend(), wider.spec_features(), wider.spec_keys()),
    ensures
        narrowed == direct,
        transform(narrowed, block) == transform(direct, block),
{
}

/// The key material of a batch depends on the round keys and the backend
/// alone: two views of one backend over equal round keys hand out equal
/// material, whether either has made its replica before or makes it now,
/// and whichever way either came about.
pub proof fn batch_keys_depend_on_round_keys<const N: usize>(
    keys: Seq<u128>,
    backend: Backend,
    one: BatchKeys<'_, N>,
    other: BatchKeys<'_, N>,
)
    requires
        one.spec_backend() == backend,
        other.spec_backend() == backend,
        one.spec_lanes() == replicated(keys, backend.spec_lanes()),
        other.spec_lanes() == replicated(keys, backend.spec_lanes()),
    ensures
        one == other,
{
    match (one, other) {
        (BatchKeys::Ni(a), BatchKeys::Ni(b)) => {
            assert forall|i: int| 0 <= i < N implies a@[i] == b@[i] by {
                assert(one.spec_lanes()[i] == other.spec_lanes()[i]);
                assert(seq![a@[i]][0] == seq![b@[i]][0]);
            }
            assert(a@ =~= b@);
            assert(*a =~= *b);
        },
        (BatchKeys::Vaes256(a), BatchKeys::Vaes256(b)) => {
            assert forall|i: int| 0 <= i < N implies a@[i] == b@[i] by {
                assert(lanes_of(*a)[i] == lanes_of(*b)[i]);
                assert(a@[i]@ =~= b@[i]@);
                assert(a@[i] =~= b@[i]);
            }
            assert(*a =~= *b);
        },
        (BatchKeys::Vaes512(a), BatchKeys::Vaes512(b)) => {
            assert forall|i: int| 0 <= i < N implies a@[i] == b@[i] by {
                assert(lanes_of(*a)[i] == lanes_of(*b)[i]);
                assert(a@[i]@ =~= b@[i]@);
                assert(a@[i] =~= b@[i]);
            }
            assert(*a =~= *b);
        },
        _ => {},
    }
}

} // verus!

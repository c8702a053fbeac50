//! CPU capabilities and the choice of a backend.
use vstd::prelude::*;

verus! {

/// The three hardware implementations, narrowest first.
#[derive(Clone, Copy, Debug, PartialEq, Eq, Structural)]
pub enum Backend {
    /// AES-NI on 128-bit registers.
    Ni,
    /// VAES on 256-bit registers.
    Vaes256,
    /// VAES on 512-bit registers.
    Vaes512,
}

impl Backend {
    /// Number of blocks that one native batch of this backend holds.
    pub open spec fn spec_par_blocks(self) -> nat {
        match self {
            Backend::Ni => 9,
            Backend::Vaes256 => 30,
            Backend::Vaes512 => 64,
        }
    }

    /// Number of 128-bit lanes in one register of this backend.
    pub open spec fn spec_lanes(self) -> nat {
        match self {
            Backend::Ni => 1,
            Backend::Vaes256 => 2,
            Backend::Vaes512 => 4,
        }
    }

    /// Position of this backend in the order narrowest to widest.
    pub open spec fn spec_rank(self) -> nat {
        match self {
            Backend::Ni => 1,
            Backend::Vaes256 => 2,
            Backend::Vaes512 => 3,
        }
    }

    /// The backend one step down from this one on a CPU with `features`, if
    /// there is one. From the 512-bit backend the step goes to the 256-bit
    /// one where that may run, and past it where it may not.
    pub open spec fn spec_narrower(self, features: Features) -> Option<Backend> {
        match self {
            Backend::Ni => None,
            Backend::Vaes256 => Some(Backend::Ni),
            Backend::Vaes512 => Some(
                if features.spec_has_vaes256() {
                    Backend::Vaes256
                } else {
                    Backend::Ni
                },
            ),
        }
    }

    /// Number of blocks that one native batch of this backend holds.
    pub fn par_blocks(self) -> (n: usize)
        ensures
            n == self.spec_par_blocks(),
    {
        match self {
            Backend::Ni => 9,
            Backend::Vaes256 => 30,
            Backend::Vaes512 => 64,
        }
    }

    /// Number of 128-bit lanes in one register of this backend.
    pub fn lanes(self) -> (n: usize)
        ensures
            n == self.spec_lanes(),
    {
        match self {
            Backend::Ni => 1,
            Backend::Vaes256 => 2,
            Backend::Vaes512 => 4,
        }
    }

    /// The backend one step down from this one on a CPU with `features`, or
    /// `None` for the narrowest. From the 512-bit backend the step goes to
    /// the 256-bit one where that may run, and past it where it may not.
    pub fn narrower(self, features: Features) -> (down: Option<Backend>)
        ensures
            down == self.spec_narrower(features),
            down matches Some(b) ==> b.spec_rank() < self.spec_rank(),
            features.spec_supports(self) ==> (down matches Some(b) ==> features.spec_supports(b)),
    {
        match self {
            Backend::Ni => None,
            Backend::Vaes256 => Some(Backend::Ni),
            Backend::Vaes512 => {
                if features.has_vaes256() {
                    Some(Backend::Vaes256)
                } else {
                    Some(Backend::Ni)
                }
            },
        }
    }
}

/// A snapshot of what the CPU offers, taken once and copied into every call.
///
/// The four capability flags are what the caller has probed. The two
/// `*_disable` flags switch a backend off whatever the CPU offers.
#[derive(Clone, Copy, Debug, PartialEq, Eq, Structural)]
pub struct Features {
    /// AES-NI, which every backend needs.
    pub aes: bool,
    /// AVX, the 256-bit register file.
    pub avx: bool,
    /// AVX-512F, the 512-bit register file.
    pub avx512f: bool,
    /// VAES, the AES instructions on wide registers.
    pub vaes: bool,
    /// Never use the 256-bit backend.
    pub avx256_disable: bool,
    /// Never use the 512-bit backend.
    pub avx512_disable: bool,
}

impl Features {
    /// The snapshot with the given capabilities and no backend switched off.
    pub open spec fn spec_new(aes: bool, avx: bool, avx512f: bool, vaes: bool) -> Features {
        Features { aes, avx, avx512f, vaes, avx256_disable: false, avx512_disable: false }
    }

    /// Whether the 256-bit backend may run.
    pub open spec fn spec_has_vaes256(&self) -> bool {
        self.vaes && self.avx && !self.avx256_disable
    }

    /// Whether the 512-bit backend may run.
    pub open spec fn spec_has_vaes512(&self) -> bool {
        self.vaes && self.avx512f && !self.avx512_disable
    }

    /// The backend that [`Features::dispatch`] selects.
    pub open spec fn spec_dispatch(&self) -> Backend {
        if self.spec_has_vaes512() {
            Backend::Vaes512
        } else if self.spec_has_vaes256() {
            Backend::Vaes256
        } else {
            Backend::Ni
        }
    }

    /// Whether `backend` may run on this CPU: AES-NI always has to be there,
    /// and the wide backends need their own capabilities on top.
    pub open spec fn spec_supports(&self, backend: Backend) -> bool {
        self.aes && match backend {
            Backend::Ni => true,
            Backend::Vaes256 => self.spec_has_vaes256(),
            Backend::Vaes512 => self.spec_has_vaes512(),
        }
    }

    /// Records the probed capabilities. No backend is switched off.
    pub fn new(aes: bool, avx: bool, avx512f: bool, vaes: bool) -> (features: Self)
        ensures
            features == Self::spec_new(aes, avx, avx512f, vaes),
    {
        Features { aes, avx, avx512f, vaes, avx256_disable: false, avx512_disable: false }
    }

    /// The same capabilities with the two switches set as given.
    pub fn with_overrides(self, avx256_disable: bool, avx512_disable: bool) -> (features: Self)
        ensures
            features == (Features { avx256_disable, avx512_disable, ..self }),
    {
        Features {
            aes: self.aes,
            avx: self.avx,
            avx512f: self.avx512f,
            vaes: self.vaes,
            avx256_disable,
            avx512_disable,
        }
    }

    /// Whether AES-NI is present.
    pub fn has_aes(&self) -> (present: bool)
        ensures
            present == self.aes,
    {
        self.aes
    }

    /// Whether the 256-bit backend may run: VAES and AVX are present and the
    /// backend is not switched off.
    pub fn has_vaes256(&self) -> (eligible: bool)
        ensures
            eligible == self.spec_has_vaes256(),
    {
        if self.vaes && self.avx && !self.avx256_disable {
            return true;
        }
        false
    }

    /// Whether the 512-bit backend may run: VAES and AVX-512F are present and
    /// the backend is not switched off.
    pub fn has_vaes512(&self) -> (eligible: bool)
        ensures
            eligible == self.spec_has_vaes512(),
    {
        if self.vaes && self.avx512f && !self.avx512_disable {
            return true;
        }
        false
    }

    /// Whether `backend` may run on this CPU.
    pub fn supports(&self, backend: Backend) -> (ok: bool)
        ensures
            ok == self.spec_supports(backend),
    {
        self.aes && match backend {
            Backend::Ni => true,
            Backend::Vaes256 => self.has_vaes256(),
            Backend::Vaes512 => self.has_vaes512(),
        }
    }

    /// Selects the backend for a call: the widest one that may run.
    pub fn dispatch(&self) -> (backend: Backend)
        ensures
            backend == self.spec_dispatch(),
            self.spec_has_vaes512() ==> backend == Backend::Vaes512,
            !self.spec_has_vaes512() && self.spec_has_vaes256() ==> backend == Backend::Vaes256,
            !self.spec_has_vaes512() && !self.spec_has_vaes256() ==> backend == Backend::Ni,
            self.aes ==> self.spec_supports(backend),
    {
        if self.has_vaes512() {
            return Backend::Vaes512;
        }
        if self.has_vaes256() {
            return Backend::Vaes256;
        }
        Backend::Ni
    }
}

/// Every combination of the four capability flags selects exactly one
/// backend: the 512-bit one where VAES and AVX-512F are there, else the
/// 256-bit one where VAES and AVX are, else the narrowest. AES-NI has no say
/// in which.
pub proof fn dispatch_is_total(aes: bool, avx: bool, avx512f: bool, vaes: bool)
    ensures
        Features::spec_new(aes, avx, avx512f, vaes).spec_dispatch() == (if vaes && avx512f {
            Backend::Vaes512
        } else if vaes && avx {
            Backend::Vaes256
        } else {
            Backend::Ni
        }),
        Features::spec_new(aes, avx, avx512f, vaes).spec_dispatch() == Features::spec_new(
            !aes,
            avx,
            avx512f,
            vaes,
        ).spec_dispatch(),
{
}

/// Selection is a function of the snapshot: two snapshots that agree on
/// every flag select the same backend.
pub proof fn dispatch_is_deterministic(a: Features, b: Features)
    requires
        a == b,
    ensures
        a.spec_dispatch() == b.spec_dispatch(),
{
}

/// Where both wide backends may run, the 512-bit one is selected, never the
/// 256-bit one.
pub proof fn dispatch_prefers_widest(features: Features)
    requires
        features.spec_has_vaes512(),
        features.spec_has_vaes256(),
    ensures
        features.spec_dispatch() == Backend::Vaes512,
        features.spec_dispatch() != Backend::Vaes256,
{
}

/// The narrowest backend is selected exactly when neither wide backend may
/// run, whatever else the CPU offers.
pub proof fn dispatch_falls_back_to_ni(features: Features)
    ensures
        features.spec_dispatch() == Backend::Ni <==> !features.spec_has_vaes512()
            && !features.spec_has_vaes256(),
{
}

/// The selected backend never needs a capability that the snapshot lacks.
pub proof fn dispatch_is_supported(features: Features)
    requires
        features.aes,
    ensures
        features.spec_supports(features.spec_dispatch()),
{
}

} // verus!

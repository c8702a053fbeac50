//! The round-key store of a cipher object.
use vstd::prelude::*;

verus! {

/// Overwrites every word of `words` with zero, by writes that the compiler
/// may not remove.
///
/// Trusted: the body hands the array to `zeroize::Zeroize::zeroize`, whose
/// impl for arrays visits each element in turn and stores the element type's
/// default value, zero for `u128`, with a volatile write. It neither panics
/// nor unwinds.
#[verifier::external_body]
fn zeroize_words<const N: usize>(words: &mut [u128; N])
    ensures
        forall|i: int| 0 <= i < N ==> final(words)@[i] == 0,
    opens_invariants none
    no_unwind
{
    zeroize::Zeroize::zeroize(words);
}

/// The expanded key schedule of one cipher object: `N` round keys of 128 bits
/// each, in the order in which the rounds consume them.
///
/// The store never changes after construction but for [`RoundKeys::erase`],
/// which also runs when the store is dropped.
pub struct RoundKeys<const N: usize> {
    words: [u128; N],
}

impl<const N: usize> View for RoundKeys<N> {
    type V = Seq<u128>;

    closed spec fn view(&self) -> Seq<u128> {
        self.words@
    }
}

impl<const N: usize> RoundKeys<N> {
    /// Whether every round key is zero.
    pub open spec fn is_erased(&self) -> bool {
        forall|i: int| 0 <= i < N ==> self@[i] == 0
    }

    /// The store always holds exactly `N` round keys.
    pub proof fn len_is_n(&self)
        ensures
            self@.len() == N,
    {
    }

    /// Takes ownership of an expanded key schedule.
    pub fn new(words: [u128; N]) -> (keys: Self)
        ensures
            keys@ == words@,
    {
        RoundKeys { words }
    }

    /// Number of round keys.
    pub fn len(&self) -> (n: usize)
        ensures
            n == N,
            n == self@.len(),
    {
        N
    }

    /// The round key of round `i`, or `None` where the schedule has no such
    /// round.
    pub fn get(&self, i: usize) -> (key: Option<u128>)
        ensures
            key == (if i < N {
                Some(self@[i as int])
            } else {
                None
            }),
    {
        if i < N {
            Some(self.words[i])
        } else {
            None
        }
    }

    /// The round keys as the kernels read them.
    pub fn as_array(&self) -> (words: &[u128; N])
        ensures
            words@ == self@,
    {
        &self.words
    }

    /// Overwrites every round key with zero. The store keeps its length.
    pub fn erase(&mut self)
        ensures
            final(self)@.len() == N,
            final(self).is_erased(),
            final(self)@ == Seq::new(N as nat, |i: int| 0u128),
    {
        zeroize_words(&mut self.words);
    }
}

impl<const N: usize> Clone for RoundKeys<N> {
    /// An independent store with the same round keys.
    fn clone(&self) -> (copy: Self)
        ensures
            copy@ == self@,
    {
        RoundKeys { words: self.words }
    }
}

impl<const N: usize> Drop for RoundKeys<N> {
    /// Wipes the store before its memory is given back.
    fn drop(&mut self)
        ensures
            final(self).is_erased(),
        opens_invariants none
        no_unwind
    {
        zeroize_words(&mut self.words);
    }
}

} // verus!

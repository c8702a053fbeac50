//! The cipher objects: an encryptor, a decryptor and the pair of them, for
//! each of the three key sizes.
//!
//! A cipher object owns the round keys that the key schedule made of its key
//! and the CPU capabilities that it was made under. The key schedule itself
//! runs in the caller: a [`Clearance`] says that it may run at all, and the
//! constructors take what it produced.
use vstd::prelude::*;
use crate::backend::BackendView;
use crate::cascade::plan;
use crate::cascade::Cascade;
use crate::error::Error;
use crate::features::Features;
use crate::keys::RoundKeys;

verus! {

/// Length in bytes of the key of the cipher with `rounds` round keys, for
/// the three round counts that there are.
pub open spec fn spec_key_size(rounds: nat) -> Option<nat> {
    if rounds == 11 {
        Some(16)
    } else if rounds == 13 {
        Some(24)
    } else if rounds == 15 {
        Some(32)
    } else {
        None
    }
}

/// Length in bytes of the key of the cipher with `rounds` round keys, or
/// `None` where there is no such cipher.
pub fn key_size(rounds: usize) -> (size: Option<usize>)
    ensures
        size is Some <==> spec_key_size(rounds as nat) is Some,
        size matches Some(n) ==> spec_key_size(rounds as nat) == Some(n as nat),
{
    if rounds == 11 {
        Some(16)
    } else if rounds == 13 {
        Some(24)
    } else if rounds == 15 {
        Some(32)
    } else {
        None
    }
}

/// The three key sizes have three different round counts: a key of 16, 24
/// or 32 bytes has a schedule of 11, 13 or 15 round keys, one for every four
/// bytes of key and seven more, and no two round counts share a key size.
pub proof fn key_size_fixes_round_count(rounds: nat, other: nat)
    ensures
        spec_key_size(11) == Some(16nat),
        spec_key_size(13) == Some(24nat),
        spec_key_size(15) == Some(32nat),
        spec_key_size(rounds) matches Some(size) ==> rounds == size / 4 + 7,
        spec_key_size(rounds) is Some && spec_key_size(rounds) == spec_key_size(other) ==> rounds
            == other,
{
}

/// Leave to run the key schedule for a cipher with `ROUNDS` round keys: the
/// CPU has AES-NI and the key has the right length.
#[derive(Clone, Copy)]
pub struct Clearance<const ROUNDS: usize> {
    features: Features,
}

impl<const ROUNDS: usize> Clearance<ROUNDS> {
    #[verifier::type_invariant]
    spec fn granted(self) -> bool {
        self.features.aes && spec_key_size(ROUNDS as nat) is Some
    }

    /// The CPU capabilities that leave was given under.
    pub closed spec fn spec_features(&self) -> Features {
        self.features
    }

    /// Decides whether a cipher with `ROUNDS` round keys can be made on a
    /// CPU with `features` from a key of `key_len` bytes.
    ///
    /// Without AES-NI nothing can be made, whatever the key. With it, the
    /// key has to have the one length that belongs to `ROUNDS`; for a round
    /// count that no cipher has, no key does.
    pub fn request(features: Features, key_len: usize) -> (leave: Result<Self, Error>)
        ensures
            leave is Ok <==> features.aes && spec_key_size(ROUNDS as nat) == Some(key_len as nat),
            leave matches Ok(clearance) ==> clearance.spec_features() == features,
            leave matches Err(error) ==> error == (if !features.aes {
                Error::UnsupportedHardware
            } else {
                Error::InvalidKeyLength
            }),
    {
        if !features.has_aes() {
            return Err(Error::UnsupportedHardware);
        }
        match key_size(ROUNDS) {
            Some(size) => {
                if size == key_len {
                    Ok(Clearance { features })
                } else {
                    Err(Error::InvalidKeyLength)
                }
            },
            None => Err(Error::InvalidKeyLength),
        }
    }

    /// The CPU capabilities that leave was given under. AES-NI is among
    /// them.
    pub fn features(&self) -> (features: Features)
        ensures
            features == self.spec_features(),
            features.aes,
            spec_key_size(ROUNDS as nat) is Some,
    {
        proof {
            use_type_invariant(self);
        }
        self.features
    }
}

/// A cipher object that encrypts.
pub struct AesEnc<const ROUNDS: usize> {
    keys: RoundKeys<ROUNDS>,
    features: Features,
}

impl<const ROUNDS: usize> AesEnc<ROUNDS> {
    #[verifier::type_invariant]
    spec fn usable(self) -> bool {
        self.features.aes && spec_key_size(ROUNDS as nat) is Some
    }

    /// The round keys of the object.
    pub closed spec fn spec_round_keys(&self) -> &RoundKeys<ROUNDS> {
        &self.keys
    }

    /// The CPU capabilities that the object was made under.
    pub closed spec fn spec_features(&self) -> Features {
        self.features
    }

    /// The encryptor with the round keys `schedule`.
    pub fn new(clearance: Clearance<ROUNDS>, schedule: [u128; ROUNDS]) -> (cipher: Self)
        ensures
            cipher.spec_round_keys()@ == schedule@,
            cipher.spec_features() == clearance.spec_features(),
    {
        let features = clearance.features();
        AesEnc { keys: RoundKeys::new(schedule), features }
    }

    /// The round keys of the object: as many as the cipher has rounds.
    pub fn round_keys(&self) -> (keys: &RoundKeys<ROUNDS>)
        ensures
            keys == self.spec_round_keys(),
            keys@.len() == ROUNDS,
            spec_key_size(ROUNDS as nat) is Some,
    {
        proof {
            use_type_invariant(self);
            self.keys.len_is_n();
        }
        &self.keys
    }

    /// The CPU capabilities that the object was made under. AES-NI is among
    /// them.
    pub fn features(&self) -> (features: Features)
        ensures
            features == self.spec_features(),
            features.aes,
            spec_key_size(ROUNDS as nat) is Some,
    {
        proof {
            use_type_invariant(self);
        }
        self.features
    }

    /// Length in bytes of the key that the object was made from.
    pub fn key_size(&self) -> (size: usize)
        ensures
            spec_key_size(ROUNDS as nat) == Some(size as nat),
    {
        proof {
            use_type_invariant(self);
        }
        if ROUNDS == 11 {
            16
        } else if ROUNDS == 13 {
            24
        } else {
            32
        }
    }

    /// The view for one call: of the widest backend that may run, over the
    /// object's round keys, with no replica made yet.
    pub fn backend(&self) -> (view: BackendView<'_, ROUNDS>)
        ensures
            view.spec_direct(
                self.spec_features().spec_dispatch(),
                self.spec_features(),
                self.spec_round_keys(),
            ),
    {
        proof {
            use_type_invariant(self);
        }
        BackendView::dispatched(self.features, &self.keys)
    }

    /// Starts a call that encrypts a buffer of `blocks` blocks.
    pub fn encrypt_blocks(&self, blocks: usize) -> (cascade: Cascade<'_, ROUNDS>)
        ensures
            cascade.spec_view().spec_direct(
                self.spec_features().spec_dispatch(),
                self.spec_features(),
                self.spec_round_keys(),
            ),
            cascade.spec_position() == 0,
            cascade.spec_blocks_left() == blocks,
            cascade.spec_steps_left() == plan(
                self.spec_features().spec_dispatch(),
                self.spec_features(),
                blocks as nat,
            ),
    {
        Cascade::new(self.backend(), blocks)
    }
}

impl<const ROUNDS: usize> Clone for AesEnc<ROUNDS> {
    /// An independent encryptor with the same round keys.
    fn clone(&self) -> (copy: Self)
        ensures
            copy.spec_round_keys()@ == self.spec_round_keys()@,
            copy.spec_features() == self.spec_features(),
    {
        proof {
            use_type_invariant(self);
        }
        AesEnc { keys: self.keys.clone(), features: self.features }
    }
}

/// A cipher object that decrypts. Its round keys are the inverse key
/// schedule, which it owns apart from any encryptor's.
pub struct AesDec<const ROUNDS: usize> {
    keys: RoundKeys<ROUNDS>,
    features: Features,
}

impl<const ROUNDS: usize> AesDec<ROUNDS> {
    #[verifier::type_invariant]
    spec fn usable(self) -> bool {
        self.features.aes && spec_key_size(ROUNDS as nat) is Some
    }

    /// The round keys of the object.
    pub closed spec fn spec_round_keys(&self) -> &RoundKeys<ROUNDS> {
        &self.keys
    }

    /// The CPU capabilities that the object was made under.
    pub closed spec fn spec_features(&self) -> Features {
        self.features
    }

    /// The decryptor with the round keys `inverse_schedule`.
    pub fn new(clearance: Clearance<ROUNDS>, inverse_schedule: [u128; ROUNDS]) -> (cipher: Self)
        ensures
            cipher.spec_round_keys()@ == inverse_schedule@,
            cipher.spec_features() == clearance.spec_features(),
    {
        let features = clearance.features();
        AesDec { keys: RoundKeys::new(inverse_schedule), features }
    }

    /// The decryptor that belongs to `encryptor`: it takes the round keys
    /// `inverse_schedule`, which the caller has derived from the
    /// encryptor's, and the encryptor's capabilities.
    pub fn from_enc(encryptor: &AesEnc<ROUNDS>, inverse_schedule: [u128; ROUNDS]) -> (cipher: Self)
        ensures
            cipher.spec_round_keys()@ == inverse_schedule@,
            cipher.spec_features() == encryptor.spec_features(),
    {
        let features = encryptor.features();
        AesDec { keys: RoundKeys::new(inverse_schedule), features }
    }

    /// The round keys of the object: as many as the cipher has rounds.
    pub fn round_keys(&self) -> (keys: &RoundKeys<ROUNDS>)
        ensures
            keys == self.spec_round_keys(),
            keys@.len() == ROUNDS,
            spec_key_size(ROUNDS as nat) is Some,
    {
        proof {
            use_type_invariant(self);
            self.keys.len_is_n();
        }
        &self.keys
    }

    /// The CPU capabilities that the object was made under. AES-NI is among
    /// them.
    pub fn features(&self) -> (features: Features)
        ensures
            features == self.spec_features(),
            features.aes,
            spec_key_size(ROUNDS as nat) is Some,
    {
        proof {
            use_type_invariant(self);
        }
        self.features
    }

    /// Length in bytes of the key that the object was made from.
    pub fn key_size(&self) -> (size: usize)
        ensures
            spec_key_size(ROUNDS as nat) == Some(size as nat),
    {
        proof {
            use_type_invariant(self);
        }
        if ROUNDS == 11 {
            16
        } else if ROUNDS == 13 {
            24
        } else {
            32
        }
    }

    /// The view for one call: of the widest backend that may run, over the
    /// object's round keys, with no replica made yet.
    pub fn backend(&self) -> (view: BackendView<'_, ROUNDS>)
        ensures
            view.spec_direct(
                self.spec_features().spec_dispatch(),
                self.spec_features(),
                self.spec_round_keys(),
            ),
    {
        proof {
            use_type_invariant(self);
        }
        BackendView::dispatched(self.features, &self.keys)
    }

    /// Starts a call that decrypts a buffer of `blocks` blocks.
    pub fn decrypt_blocks(&self, blocks: usize) -> (cascade: Cascade<'_, ROUNDS>)
        ensures
            cascade.spec_view().spec_direct(
                self.spec_features().spec_dispatch(),
                self.spec_features(),
                self.spec_round_keys(),
            ),
            cascade.spec_position() == 0,
            cascade.spec_blocks_left() == blocks,
            cascade.spec_steps_left() == plan(
                self.spec_features().spec_dispatch(),
                self.spec_features(),
                blocks as nat,
            ),
    {
        Cascade::new(self.backend(), blocks)
    }
}

impl<const ROUNDS: usize> Clone for AesDec<ROUNDS> {
    /// An independent decryptor with the same round keys.
    fn clone(&self) -> (copy: Self)
        ensures
            copy.spec_round_keys()@ == self.spec_round_keys()@,
            copy.spec_features() == self.spec_features(),
    {
        proof {
            use_type_invariant(self);
        }
        AesDec { keys: self.keys.clone(), features: self.features }
    }
}

/// A cipher object that encrypts and decrypts: an encryptor and the
/// decryptor that belongs to it.
pub struct Aes<const ROUNDS: usize> {
    encrypt: AesEnc<ROUNDS>,
    decrypt: AesDec<ROUNDS>,
}

impl<const ROUNDS: usize> Aes<ROUNDS> {
    #[verifier::type_invariant]
    spec fn paired(self) -> bool {
        self.encrypt.spec_features() == self.decrypt.spec_features()
    }

    /// The encrypting half.
    pub closed spec fn spec_encryptor(&self) -> &AesEnc<ROUNDS> {
        &self.encrypt
    }

    /// The decrypting half.
    pub closed spec fn spec_decryptor(&self) -> &AesDec<ROUNDS> {
        &self.decrypt
    }

    /// The cipher with the round keys `schedule` for encryption and
    /// `inverse_schedule` for decryption.
    pub fn new(
        clearance: Clearance<ROUNDS>,
        schedule: [u128; ROUNDS],
        inverse_schedule: [u128; ROUNDS],
    ) -> (cipher: Self)
        ensures
            cipher.spec_encryptor().spec_round_keys()@ == schedule@,
            cipher.spec_decryptor().spec_round_keys()@ == inverse_schedule@,
            cipher.spec_encryptor().spec_features() == clearance.spec_features(),
            cipher.spec_decryptor().spec_features() == clearance.spec_features(),
    {
        let encrypt = AesEnc::new(clearance, schedule);
        let decrypt = AesDec::from_enc(&encrypt, inverse_schedule);
        Aes { encrypt, decrypt }
    }

    /// The cipher made of `encryptor` and the decryptor that belongs to it,
    /// with the round keys `inverse_schedule`.
    pub fn from_enc(encryptor: AesEnc<ROUNDS>, inverse_schedule: [u128; ROUNDS]) -> (cipher: Self)
        ensures
            *cipher.spec_encryptor() == encryptor,
            cipher.spec_decryptor().spec_round_keys()@ == inverse_schedule@,
            cipher.spec_decryptor().spec_features() == encryptor.spec_features(),
    {
        let decrypt = AesDec::from_enc(&encryptor, inverse_schedule);
        Aes { encrypt: encryptor, decrypt }
    }

    /// The encrypting half.
    pub fn encryptor(&self) -> (encryptor: &AesEnc<ROUNDS>)
        ensures
            encryptor == self.spec_encryptor(),
            encryptor.spec_features() == self.spec_decryptor().spec_features(),
    {
        proof {
            use_type_invariant(self);
        }
        &self.encrypt
    }

    /// The decrypting half.
    pub fn decryptor(&self) -> (decryptor: &AesDec<ROUNDS>)
        ensures
            decryptor == self.spec_decryptor(),
            decryptor.spec_features() == self.spec_encryptor().spec_features(),
    {
        proof {
            use_type_invariant(self);
        }
        &self.decrypt
    }

    /// Starts a call that encrypts a buffer of `blocks` blocks.
    pub fn encrypt_blocks(&self, blocks: usize) -> (cascade: Cascade<'_, ROUNDS>)
        ensures
            cascade.spec_view().spec_direct(
                self.spec_encryptor().spec_features().spec_dispatch(),
                self.spec_encryptor().spec_features(),
                self.spec_encryptor().spec_round_keys(),
            ),
            cascade.spec_position() == 0,
            cascade.spec_blocks_left() == blocks,
            cascade.spec_steps_left() == plan(
                self.spec_encryptor().spec_features().spec_dispatch(),
                self.spec_encryptor().spec_features(),
                blocks as nat,
            ),
    {
        self.encrypt.encrypt_blocks(blocks)
    }

    /// Starts a call that decrypts a buffer of `blocks` blocks.
    pub fn decrypt_blocks(&self, blocks: usize) -> (cascade: Cascade<'_, ROUNDS>)
        ensures
            cascade.spec_view().spec_direct(
                self.spec_decryptor().spec_features().spec_dispatch(),
                self.spec_decryptor().spec_features(),
                self.spec_decryptor().spec_round_keys(),
            ),
            cascade.spec_position() == 0,
            cascade.spec_blocks_left() == blocks,
            cascade.spec_steps_left() == plan(
                self.spec_decryptor().spec_features().spec_dispatch(),
                self.spec_decryptor().spec_features(),
                blocks as nat,
            ),
    {
        self.decrypt.decrypt_blocks(blocks)
    }
}

impl<const ROUNDS: usize> Clone for Aes<ROUNDS> {
    /// An independent cipher with the same round keys.
    fn clone(&self) -> (copy: Self)
        ensures
            copy.spec_encryptor().spec_round_keys()@ == self.spec_encryptor().spec_round_keys()@,
            copy.spec_decryptor().spec_round_keys()@ == self.spec_decryptor().spec_round_keys()@,
            copy.spec_encryptor().spec_features() == self.spec_encryptor().spec_features(),
            copy.spec_decryptor().spec_features() == self.spec_decryptor().spec_features(),
    {
        proof {
            use_type_invariant(self);
        }
        Aes { encrypt: self.encrypt.clone(), decrypt: self.decrypt.clone() }
    }
}

/// AES-128, which encrypts and decrypts.
pub type Aes128 = Aes<11>;

/// AES-128, which encrypts.
pub type Aes128Enc = AesEnc<11>;

/// AES-128, which decrypts.
pub type Aes128Dec = AesDec<11>;

/// AES-192, which encrypts and decrypts.
pub type Aes192 = Aes<13>;

/// AES-192, which encrypts.
pub type Aes192Enc = AesEnc<13>;

/// AES-192, which decrypts.
pub type Aes192Dec = AesDec<13>;

/// AES-256, which encrypts and decrypts.
pub type Aes256 = Aes<15>;

/// AES-256, which encrypts.
pub type Aes256Enc = AesEnc<15>;

/// AES-256, which decrypts.
pub type Aes256Dec = AesDec<15>;

} // verus!

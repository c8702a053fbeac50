//! Runtime backend selection and block scheduling for hardware AES on x86.
//!
//! The crate decides *which* accelerated implementation processes *which*
//! blocks; it never touches a block itself. Given the CPU capabilities that a
//! caller has probed it
//!
//! * selects one of three backends ([`features::Backend`]), widest first;
//! * owns the expanded round keys of a cipher object and wipes them when the
//!   object goes away ([`keys::RoundKeys`]);
//! * hands out call-scoped views of those keys, one type per backend, which
//!   replicate the keys into wider registers on first use and can be narrowed
//!   to the next backend without touching the key schedule ([`backend`]);
//! * splits a run of blocks into native batches, stepping down one backend at
//!   a time until only single blocks remain ([`cascade`]), and says what the
//!   steps amount to for the buffer ([`effect`]);
//! * ties the three together in the cipher objects of the three key sizes
//!   ([`aes`]).
//!
//! The instruction sequences that expand a key or transform a batch live with
//! the caller, which carries out the steps that this crate hands it.
pub mod error;
pub mod features;
pub mod keys;
pub mod backend;
pub mod cascade;
pub mod effect;
pub mod aes;

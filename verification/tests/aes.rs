use aes_x86::aes::key_size;
use aes_x86::aes::Aes;
use aes_x86::aes::Aes128;
use aes_x86::aes::Aes128Dec;
use aes_x86::aes::Aes128Enc;
use aes_x86::aes::Aes192;
use aes_x86::aes::Aes192Dec;
use aes_x86::aes::Aes192Enc;
use aes_x86::aes::Aes256;
use aes_x86::aes::Aes256Dec;
use aes_x86::aes::Aes256Enc;
use aes_x86::aes::AesDec;
use aes_x86::aes::AesEnc;
use aes_x86::aes::Clearance;
use aes_x86::error::Error;
use aes_x86::features::Backend;
use aes_x86::features::Features;

fn all() -> Features {
    Features::new(true, true, true, true)
}

fn error_of<const ROUNDS: usize>(features: Features, key_len: usize) -> Option<Error> {
    Clearance::<ROUNDS>::request(features, key_len).err()
}

#[test]
fn key_sizes_go_with_round_counts() {
    assert_eq!(key_size(11), Some(16));
    assert_eq!(key_size(13), Some(24));
    assert_eq!(key_size(15), Some(32));
    for rounds in 0..64usize {
        if rounds != 11 && rounds != 13 && rounds != 15 {
            assert_eq!(key_size(rounds), None);
        }
    }
    assert_eq!(key_size(usize::MAX), None);
}

#[test]
fn round_count_is_a_quarter_of_the_key_and_seven() {
    for rounds in [11usize, 13, 15] {
        assert_eq!(key_size(rounds).unwrap() / 4 + 7, rounds);
    }
}

#[test]
fn clearance_takes_the_one_key_length_of_each_cipher() {
    assert_eq!(error_of::<11>(all(), 16), None);
    assert_eq!(error_of::<13>(all(), 24), None);
    assert_eq!(error_of::<15>(all(), 32), None);
}

#[test]
fn clearance_refuses_every_other_key_length() {
    for len in 0..=64usize {
        assert_eq!(error_of::<11>(all(), len).is_some(), len != 16);
        assert_eq!(error_of::<13>(all(), len).is_some(), len != 24);
        assert_eq!(error_of::<15>(all(), len).is_some(), len != 32);
    }
    assert_eq!(error_of::<11>(all(), 24), Some(Error::InvalidKeyLength));
    assert_eq!(error_of::<13>(all(), 16), Some(Error::InvalidKeyLength));
    assert_eq!(error_of::<15>(all(), 0), Some(Error::InvalidKeyLength));
    assert_eq!(error_of::<15>(all(), usize::MAX), Some(Error::InvalidKeyLength));
}

#[test]
fn clearance_refuses_a_cpu_without_aes() {
    let without = Features::new(false, true, true, true);
    assert_eq!(error_of::<11>(without, 16), Some(Error::UnsupportedHardware));
    assert_eq!(error_of::<13>(without, 24), Some(Error::UnsupportedHardware));
    assert_eq!(error_of::<15>(without, 32), Some(Error::UnsupportedHardware));
}

#[test]
fn missing_aes_is_reported_before_a_wrong_key_length() {
    let without = Features::new(false, false, false, false);
    assert_eq!(error_of::<11>(without, 17), Some(Error::UnsupportedHardware));
    assert_eq!(error_of::<12>(without, 16), Some(Error::UnsupportedHardware));
}

#[test]
fn clearance_refuses_a_round_count_that_no_cipher_has() {
    for len in [0usize, 16, 20, 24, 32] {
        assert_eq!(error_of::<12>(all(), len), Some(Error::InvalidKeyLength));
        assert_eq!(error_of::<0>(all(), len), Some(Error::InvalidKeyLength));
        assert_eq!(error_of::<17>(all(), len), Some(Error::InvalidKeyLength));
    }
}

#[test]
fn clearance_needs_no_wide_backend() {
    let narrow = Features::new(true, false, false, false);
    assert!(Clearance::<11>::request(narrow, 16).is_ok());
}

#[test]
fn clearance_remembers_the_capabilities() {
    let features = Features::new(true, true, false, true).with_overrides(false, true);
    let clearance = Clearance::<13>::request(features, 24).unwrap();
    assert_eq!(clearance.features(), features);
}

fn schedule<const ROUNDS: usize>(seed: u128) -> [u128; ROUNDS] {
    let mut words = [0u128; ROUNDS];
    for (i, word) in words.iter_mut().enumerate() {
        *word = seed.wrapping_mul(2 * i as u128 + 3) ^ (i as u128) << 100;
    }
    words
}

#[test]
fn encryptor_owns_the_schedule_it_was_given() {
    let words = schedule::<11>(0xfeed);
    let clearance = Clearance::<11>::request(all(), 16).unwrap();
    let cipher: Aes128Enc = AesEnc::new(clearance, words);
    assert_eq!(cipher.round_keys().as_array(), &words);
    assert_eq!(cipher.round_keys().len(), 11);
    assert_eq!(cipher.features(), all());
    assert_eq!(cipher.key_size(), 16);
}

#[test]
fn each_key_size_has_its_own_round_count() {
    let c128 = Clearance::<11>::request(all(), 16).unwrap();
    let c192 = Clearance::<13>::request(all(), 24).unwrap();
    let c256 = Clearance::<15>::request(all(), 32).unwrap();
    let e128: Aes128Enc = AesEnc::new(c128, schedule(1));
    let e192: Aes192Enc = AesEnc::new(c192, schedule(1));
    let e256: Aes256Enc = AesEnc::new(c256, schedule(1));
    assert_eq!((e128.key_size(), e128.round_keys().len()), (16, 11));
    assert_eq!((e192.key_size(), e192.round_keys().len()), (24, 13));
    assert_eq!((e256.key_size(), e256.round_keys().len()), (32, 15));
    let d128: Aes128Dec = AesDec::new(c128, schedule(2));
    let d192: Aes192Dec = AesDec::new(c192, schedule(2));
    let d256: Aes256Dec = AesDec::new(c256, schedule(2));
    assert_eq!((d128.key_size(), d128.round_keys().len()), (16, 11));
    assert_eq!((d192.key_size(), d192.round_keys().len()), (24, 13));
    assert_eq!((d256.key_size(), d256.round_keys().len()), (32, 15));
}

#[test]
fn backend_of_a_cipher_is_the_dispatched_one() {
    for bits in 0u8..32 {
        let features = Features::new(true, bits & 1 != 0, bits & 2 != 0, bits & 4 != 0)
            .with_overrides(bits & 8 != 0, bits & 16 != 0);
        let clearance = Clearance::<13>::request(features, 24).unwrap();
        let enc: Aes192Enc = AesEnc::new(clearance, schedule(7));
        let view = enc.backend();
        assert_eq!(view.backend(), features.dispatch());
        assert_eq!(view.features(), features);
        assert!(std::ptr::eq(view.keys(), enc.round_keys()));
        assert!(!view.is_broadcast());
        let dec: Aes192Dec = AesDec::from_enc(&enc, schedule(9));
        let view = dec.backend();
        assert_eq!(view.backend(), features.dispatch());
        assert!(std::ptr::eq(view.keys(), dec.round_keys()));
    }
}

#[test]
fn overrides_force_the_backend_of_a_cipher() {
    for (off256, off512, want) in [
        (false, false, Backend::Vaes512),
        (false, true, Backend::Vaes256),
        (true, true, Backend::Ni),
    ] {
        let features = all().with_overrides(off256, off512);
        let clearance = Clearance::<15>::request(features, 32).unwrap();
        let enc: Aes256Enc = AesEnc::new(clearance, schedule(3));
        assert_eq!(enc.backend().backend(), want);
    }
}

#[test]
fn decryptor_takes_the_capabilities_of_its_encryptor() {
    let features = Features::new(true, true, false, true);
    let clearance = Clearance::<11>::request(features, 16).unwrap();
    let forward = schedule::<11>(11);
    let inverse = schedule::<11>(12);
    let enc = AesEnc::new(clearance, forward);
    let dec = AesDec::from_enc(&enc, inverse);
    assert_eq!(dec.features(), features);
    assert_eq!(dec.round_keys().as_array(), &inverse);
    assert_eq!(enc.round_keys().as_array(), &forward);
    assert!(!std::ptr::eq(enc.round_keys(), dec.round_keys()));
}

#[test]
fn pair_holds_both_schedules() {
    let clearance = Clearance::<11>::request(all(), 16).unwrap();
    let forward = schedule::<11>(21);
    let inverse = schedule::<11>(22);
    let cipher: Aes128 = Aes::new(clearance, forward, inverse);
    assert_eq!(cipher.encryptor().round_keys().as_array(), &forward);
    assert_eq!(cipher.decryptor().round_keys().as_array(), &inverse);
    assert_eq!(cipher.encryptor().features(), all());
    assert_eq!(cipher.decryptor().features(), all());
}

#[test]
fn pair_can_be_made_from_an_encryptor() {
    let features = Features::new(true, false, false, false);
    let clearance = Clearance::<13>::request(features, 24).unwrap();
    let forward = schedule::<13>(31);
    let inverse = schedule::<13>(32);
    let cipher: Aes192 = Aes::from_enc(AesEnc::new(clearance, forward), inverse);
    assert_eq!(cipher.encryptor().round_keys().as_array(), &forward);
    assert_eq!(cipher.decryptor().round_keys().as_array(), &inverse);
    assert_eq!(cipher.decryptor().features(), features);
}

#[test]
fn clones_own_their_round_keys() {
    let clearance = Clearance::<15>::request(all(), 32).unwrap();
    let forward = schedule::<15>(41);
    let inverse = schedule::<15>(42);
    let cipher: Aes256 = Aes::new(clearance, forward, inverse);
    let copy = cipher.clone();
    drop(cipher);
    assert_eq!(copy.encryptor().round_keys().as_array(), &forward);
    assert_eq!(copy.decryptor().round_keys().as_array(), &inverse);
    assert_eq!(copy.encryptor().features(), all());
    let enc = copy.encryptor().clone();
    let dec = copy.decryptor().clone();
    drop(copy);
    assert_eq!(enc.round_keys().as_array(), &forward);
    assert_eq!(dec.round_keys().as_array(), &inverse);
}

#[test]
fn a_call_starts_at_the_dispatched_backend() {
    let clearance = Clearance::<11>::request(all(), 16).unwrap();
    let cipher: Aes128 = Aes::new(clearance, schedule(51), schedule(52));
    let call = cipher.encrypt_blocks(70);
    assert_eq!(call.view().backend(), Backend::Vaes512);
    assert!(std::ptr::eq(call.keys(), cipher.encryptor().round_keys()));
    assert_eq!(call.position(), 0);
    assert_eq!(call.blocks_left(), 70);
    let call = cipher.decrypt_blocks(5);
    assert_eq!(call.view().backend(), Backend::Vaes512);
    assert!(std::ptr::eq(call.keys(), cipher.decryptor().round_keys()));
    assert_eq!(call.blocks_left(), 5);
}

use aes_x86::features::Backend;
use aes_x86::features::Features;

fn expected(avx: bool, avx512f: bool, vaes: bool) -> Backend {
    if vaes && avx512f {
        Backend::Vaes512
    } else if vaes && avx {
        Backend::Vaes256
    } else {
        Backend::Ni
    }
}

#[test]
fn dispatch_covers_every_combination_of_capabilities() {
    for bits in 0u8..16 {
        let aes = bits & 1 != 0;
        let avx = bits & 2 != 0;
        let avx512f = bits & 4 != 0;
        let vaes = bits & 8 != 0;
        let features = Features::new(aes, avx, avx512f, vaes);
        assert_eq!(features.dispatch(), expected(avx, avx512f, vaes), "bits {bits:04b}");
    }
}

#[test]
fn dispatch_gives_the_same_backend_every_time() {
    for bits in 0u8..16 {
        let first = Features::new(bits & 1 != 0, bits & 2 != 0, bits & 4 != 0, bits & 8 != 0);
        let second = Features::new(bits & 1 != 0, bits & 2 != 0, bits & 4 != 0, bits & 8 != 0);
        assert_eq!(first, second);
        assert_eq!(first.dispatch(), second.dispatch());
        assert_eq!(first.dispatch(), first.dispatch());
    }
}

#[test]
fn dispatch_prefers_the_widest_backend() {
    let all = Features::new(true, true, true, true);
    assert!(all.has_vaes256());
    assert!(all.has_vaes512());
    assert_eq!(all.dispatch(), Backend::Vaes512);
}

#[test]
fn dispatch_takes_the_middle_backend_without_avx512() {
    let features = Features::new(true, true, false, true);
    assert!(features.has_vaes256());
    assert!(!features.has_vaes512());
    assert_eq!(features.dispatch(), Backend::Vaes256);
}

#[test]
fn dispatch_takes_the_widest_backend_without_avx() {
    let features = Features::new(true, false, true, true);
    assert!(!features.has_vaes256());
    assert!(features.has_vaes512());
    assert_eq!(features.dispatch(), Backend::Vaes512);
}

#[test]
fn dispatch_falls_back_without_vaes() {
    let features = Features::new(true, true, true, false);
    assert!(!features.has_vaes256());
    assert!(!features.has_vaes512());
    assert_eq!(features.dispatch(), Backend::Ni);
}

#[test]
fn dispatch_does_not_look_at_aes() {
    for bits in 0u8..8 {
        let with = Features::new(true, bits & 1 != 0, bits & 2 != 0, bits & 4 != 0);
        let without = Features::new(false, bits & 1 != 0, bits & 2 != 0, bits & 4 != 0);
        assert_eq!(with.dispatch(), without.dispatch());
    }
}

#[test]
fn new_switches_nothing_off() {
    let features = Features::new(true, false, true, false);
    assert!(features.aes);
    assert!(!features.avx);
    assert!(features.avx512f);
    assert!(!features.vaes);
    assert!(!features.avx256_disable);
    assert!(!features.avx512_disable);
    assert!(features.has_aes());
    assert!(!Features::new(false, true, true, true).has_aes());
}

#[test]
fn overrides_force_each_backend() {
    let all = Features::new(true, true, true, true);
    assert_eq!(all.with_overrides(false, false).dispatch(), Backend::Vaes512);
    assert_eq!(all.with_overrides(false, true).dispatch(), Backend::Vaes256);
    assert_eq!(all.with_overrides(true, true).dispatch(), Backend::Ni);
    assert_eq!(all.with_overrides(true, false).dispatch(), Backend::Vaes512);
}

#[test]
fn overrides_keep_the_capabilities() {
    let features = Features::new(true, true, false, true).with_overrides(true, true);
    assert_eq!(
        features,
        Features {
            aes: true,
            avx: true,
            avx512f: false,
            vaes: true,
            avx256_disable: true,
            avx512_disable: true,
        }
    );
    assert!(!features.has_vaes256());
    assert!(!features.has_vaes512());
    let back = features.with_overrides(false, false);
    assert_eq!(back, Features::new(true, true, false, true));
    assert!(back.has_vaes256());
}

#[test]
fn overrides_cover_every_combination() {
    for bits in 0u8..64 {
        let avx = bits & 2 != 0;
        let avx512f = bits & 4 != 0;
        let vaes = bits & 8 != 0;
        let off256 = bits & 16 != 0;
        let off512 = bits & 32 != 0;
        let features = Features::new(bits & 1 != 0, avx, avx512f, vaes).with_overrides(off256, off512);
        assert_eq!(features.has_vaes256(), vaes && avx && !off256);
        assert_eq!(features.has_vaes512(), vaes && avx512f && !off512);
        let want = if features.has_vaes512() {
            Backend::Vaes512
        } else if features.has_vaes256() {
            Backend::Vaes256
        } else {
            Backend::Ni
        };
        assert_eq!(features.dispatch(), want);
    }
}

#[test]
fn supports_needs_aes_for_every_backend() {
    let without = Features::new(false, true, true, true);
    assert!(!without.supports(Backend::Ni));
    assert!(!without.supports(Backend::Vaes256));
    assert!(!without.supports(Backend::Vaes512));
    let with = Features::new(true, true, true, true);
    assert!(with.supports(Backend::Ni));
    assert!(with.supports(Backend::Vaes256));
    assert!(with.supports(Backend::Vaes512));
    let narrow = Features::new(true, false, false, false);
    assert!(narrow.supports(Backend::Ni));
    assert!(!narrow.supports(Backend::Vaes256));
    assert!(!narrow.supports(Backend::Vaes512));
}

#[test]
fn dispatch_selects_a_supported_backend_where_aes_is_there() {
    for bits in 0u8..32 {
        let features = Features::new(true, bits & 1 != 0, bits & 2 != 0, bits & 4 != 0)
            .with_overrides(bits & 8 != 0, bits & 16 != 0);
        assert!(features.supports(features.dispatch()));
    }
}

#[test]
fn batch_sizes_are_nine_thirty_and_sixty_four() {
    assert_eq!(Backend::Ni.par_blocks(), 9);
    assert_eq!(Backend::Vaes256.par_blocks(), 30);
    assert_eq!(Backend::Vaes512.par_blocks(), 64);
}

#[test]
fn registers_hold_one_two_and_four_lanes() {
    assert_eq!(Backend::Ni.lanes(), 1);
    assert_eq!(Backend::Vaes256.lanes(), 2);
    assert_eq!(Backend::Vaes512.lanes(), 4);
}

#[test]
fn narrower_goes_down_one_backend() {
    let all = Features::new(true, true, true, true);
    assert_eq!(Backend::Vaes512.narrower(all), Some(Backend::Vaes256));
    assert_eq!(Backend::Vaes256.narrower(all), Some(Backend::Ni));
    assert_eq!(Backend::Ni.narrower(all), None);
}

#[test]
fn narrower_skips_the_middle_backend_where_it_may_not_run() {
    let all = Features::new(true, true, true, true);
    assert_eq!(Backend::Vaes512.narrower(all.with_overrides(true, false)), Some(Backend::Ni));
    assert_eq!(Backend::Vaes512.narrower(Features::new(true, false, true, true)), Some(Backend::Ni));
    assert_eq!(Backend::Vaes512.narrower(Features::new(true, true, true, false)), Some(Backend::Ni));
    assert_eq!(Backend::Vaes256.narrower(all.with_overrides(true, false)), Some(Backend::Ni));
}

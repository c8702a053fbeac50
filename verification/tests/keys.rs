use aes_x86::keys::RoundKeys;

fn schedule() -> [u128; 11] {
    let mut words = [0u128; 11];
    for (i, word) in words.iter_mut().enumerate() {
        *word = 0x0123_4567_89ab_cdef_0011_2233_4455_6677u128.wrapping_mul(i as u128 + 1) | 1;
    }
    words
}

#[test]
fn store_holds_the_schedule_it_was_given() {
    let words = schedule();
    let keys = RoundKeys::new(words);
    assert_eq!(keys.len(), 11);
    assert_eq!(keys.as_array(), &words);
    for (i, word) in words.iter().enumerate() {
        assert_eq!(keys.get(i), Some(*word));
    }
}

#[test]
fn get_stops_at_the_last_round() {
    let keys = RoundKeys::new(schedule());
    assert!(keys.get(10).is_some());
    assert_eq!(keys.get(11), None);
    assert_eq!(keys.get(usize::MAX), None);
}

#[test]
fn store_has_as_many_round_keys_as_its_type_says() {
    assert_eq!(RoundKeys::new([1u128; 11]).len(), 11);
    assert_eq!(RoundKeys::new([1u128; 13]).len(), 13);
    assert_eq!(RoundKeys::new([1u128; 15]).len(), 15);
}

#[test]
fn erase_zeroes_every_round_key() {
    let mut keys = RoundKeys::new(schedule());
    assert!(keys.as_array().iter().all(|word| *word != 0));
    keys.erase();
    assert_eq!(keys.len(), 11);
    assert_eq!(keys.as_array(), &[0u128; 11]);
    for i in 0..11 {
        assert_eq!(keys.get(i), Some(0));
    }
}

#[test]
fn erase_zeroes_the_longest_schedule() {
    let mut keys = RoundKeys::new([u128::MAX; 15]);
    keys.erase();
    assert_eq!(keys.as_array(), &[0u128; 15]);
}

#[test]
fn erase_twice_is_erase_once() {
    let mut keys = RoundKeys::new(schedule());
    keys.erase();
    keys.erase();
    assert_eq!(keys.as_array(), &[0u128; 11]);
}

#[test]
fn clone_is_independent_of_the_store_it_came_from() {
    let words = schedule();
    let keys = RoundKeys::new(words);
    let mut copy = keys.clone();
    assert_eq!(copy.as_array(), &words);
    copy.erase();
    assert_eq!(copy.as_array(), &[0u128; 11]);
    assert_eq!(keys.as_array(), &words);
}

#[test]
fn dropping_a_store_leaves_its_clone_alone() {
    let words = schedule();
    let keys = RoundKeys::new(words);
    let copy = keys.clone();
    drop(keys);
    assert_eq!(copy.as_array(), &words);
}

use umash::EntropyError;
use umash::LazyRandomState;
use umash::RandomState;

fn sample_key() -> [u8; 32] {
    let mut key = [0u8; 32];
    for (i, byte) in key.iter_mut().enumerate() {
        *byte = 3 * i as u8 + 1;
    }
    key
}

#[test]
fn seeded_state_starts_at_zero() {
    let state = RandomState::seeded(sample_key());

    assert_eq!(state.counter(), 0);
}

#[test]
fn successive_derivations_carry_the_key_and_count_up() {
    let key = sample_key();
    let mut state = RandomState::seeded(key);

    for expected in 0u64..100 {
        assert_eq!(state.counter(), expected);
        let derivation = state.next_derivation();
        assert_eq!(derivation.bits, expected);
        assert_eq!(derivation.key, key);
    }
    assert_eq!(state.counter(), 100);
}

#[test]
fn successive_derivations_are_pairwise_distinct() {
    let mut state = RandomState::seeded(sample_key());
    let mut seen = Vec::new();

    for _ in 0..64 {
        let derivation = state.next_derivation();
        assert!(!seen.contains(&derivation));
        seen.push(derivation);
    }
}

#[test]
fn state_resumes_at_the_given_counter() {
    let key = sample_key();
    let mut state = RandomState::with_counter(key, 0xcd03);

    assert_eq!(state.counter(), 0xcd03);
    assert_eq!(state.next_derivation().bits, 0xcd03);
    assert_eq!(state.next_derivation().bits, 0xcd04);
    assert_eq!(state.counter(), 0xcd05);
}

#[test]
fn counter_wraps_to_zero_after_the_last_value() {
    let key = sample_key();
    let mut state = RandomState::with_counter(key, u64::MAX - 1);

    let before_last = state.next_derivation();
    assert_eq!(before_last.bits, u64::MAX - 1);
    assert_eq!(state.counter(), u64::MAX);

    let last = state.next_derivation();
    assert_eq!(last.bits, u64::MAX);
    assert_eq!(last.key, key);
    assert_eq!(state.counter(), 0);

    let wrapped = state.next_derivation();
    assert_eq!(wrapped.bits, 0);
    assert_eq!(wrapped.key, key);
    assert_eq!(state.counter(), 1);
}

#[test]
fn states_with_different_keys_never_agree() {
    let mut first = RandomState::seeded([1u8; 32]);
    let mut second = RandomState::seeded([2u8; 32]);

    for _ in 0..8 {
        let a = first.next_derivation();
        let b = second.next_derivation();
        assert_eq!(a.bits, b.bits);
        assert_ne!(a, b);
    }
}

#[test]
fn state_from_entropy_starts_at_zero_with_random_key() {
    let mut state = RandomState::from_entropy().expect("failed to generate 32 random bytes");

    assert_eq!(state.counter(), 0);
    let first = state.next_derivation();
    assert_eq!(first.bits, 0);
    assert_ne!(first.key, [0u8; 32]);

    let second = state.next_derivation();
    assert_eq!(second.bits, 1);
    assert_eq!(second.key, first.key);
}

#[test]
fn two_states_from_entropy_have_different_keys() {
    let mut first = RandomState::from_entropy().expect("failed to generate 32 random bytes");
    let mut second = RandomState::from_entropy().expect("failed to generate 32 random bytes");

    assert_ne!(first.next_derivation().key, second.next_derivation().key);
}

#[test]
fn lazy_state_reads_the_random_source_on_first_use() {
    let mut lazy = LazyRandomState::new();
    assert!(!lazy.is_ready());

    let first = lazy
        .next_derivation()
        .expect("failed to generate 32 random bytes");
    assert!(lazy.is_ready());
    assert_eq!(first.bits, 0);
    assert_ne!(first.key, [0u8; 32]);
}

#[test]
fn lazy_state_continues_where_it_stopped() {
    let mut lazy = LazyRandomState::new();
    let first = lazy
        .next_derivation()
        .expect("failed to generate 32 random bytes");

    for expected in 1u64..50 {
        let next = lazy
            .next_derivation()
            .expect("failed to generate 32 random bytes");
        assert!(lazy.is_ready());
        assert_eq!(next.bits, expected);
        assert_eq!(next.key, first.key);
        assert_ne!(next, first);
    }
}

#[test]
fn two_lazy_states_draw_different_keys() {
    let mut first = LazyRandomState::new();
    let mut second = LazyRandomState::new();
    let a = first
        .next_derivation()
        .expect("failed to generate 32 random bytes");
    let b = second
        .next_derivation()
        .expect("failed to generate 32 random bytes");

    assert_eq!(a.bits, b.bits);
    assert_ne!(a.key, b.key);
}

#[test]
fn successful_read_becomes_a_fresh_state_with_the_bytes_read() {
    let key = sample_key();
    let mut state = match RandomState::from_read(Ok(key)) {
        Ok(state) => state,
        Err(e) => panic!("a successful read was turned into {:?}", e),
    };

    assert_eq!(state.counter(), 0);
    let first = state.next_derivation();
    assert_eq!(first.bits, 0);
    assert_eq!(first.key, key);
    assert_eq!(state.next_derivation().bits, 1);
}

#[test]
fn failed_read_comes_back_with_its_code() {
    for code in [1u32, 38, 0x8000_0001, u32::MAX] {
        match RandomState::from_read(Err(EntropyError { code })) {
            Ok(_) => panic!("a failed read was turned into a state"),
            Err(e) => assert_eq!(e, EntropyError { code }),
        }
    }
}

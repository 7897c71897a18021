use juni::ids::random_id;

#[test]
fn ids_are_six_lowercase_alphanumerics() {
    for seq in 0..200u64 {
        let id = random_id((seq as u32).wrapping_mul(7919), seq);
        assert_eq!(id.chars().count(), 6);
        assert!(id.chars().all(|c| c.is_ascii_lowercase() || c.is_ascii_digit()), "{id}");
    }
}

#[test]
fn ids_match_the_mixing_formula() {
    // Reference computation for one input: the scattered sequence number
    // below the clock mix, written least significant digit first.
    let nanos: u32 = 123_456_789;
    let seq: u64 = 42;
    let mut h = (nanos as u64).wrapping_add(seq.wrapping_mul(6_364_136_223_846_793_005).wrapping_add(1));
    h ^= h >> 33;
    h = h.wrapping_mul(0xff51_afd7_ed55_8ccd);
    h ^= h >> 33;
    let low = ((seq % 46656) * 30841 + 17077) % 46656;
    let charset = b"abcdefghijklmnopqrstuvwxyz0123456789";
    let mut expected = String::new();
    let mut v = (h % 46656) * 46656 + low;
    for _ in 0..6 {
        expected.push(charset[(v % 36) as usize] as char);
        v /= 36;
    }
    assert_eq!(random_id(nanos, seq), expected);
}

#[test]
fn close_calls_never_share_an_id() {
    // Two calls 1.088 microseconds apart.
    assert_ne!(random_id(243_354, 0), random_id(244_442, 1));
    let mut seen = std::collections::HashSet::new();
    for seq in 0..46_656u64 {
        let nanos = (seq as u32).wrapping_mul(2_654_435_761) % 1_000_000_000;
        assert!(seen.insert(random_id(nanos, seq)), "repeat at {seq}");
    }
}

#[test]
fn consecutive_sequence_numbers_give_different_ids() {
    let a = random_id(5, 0);
    let b = random_id(5, 1);
    let c = random_id(5, 2);
    assert_ne!(a, b);
    assert_ne!(b, c);
    assert_eq!(random_id(5, 1), b);
}

#[test]
fn zero_inputs_still_give_an_id() {
    let id = random_id(0, 0);
    assert_eq!(id.len(), 6);
}

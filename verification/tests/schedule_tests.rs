use spsc_pipeline::item::encode_item;
use spsc_pipeline::schedule::RoundRobin;

#[test]
fn cursor_cycles_through_width() {
    let mut rr = RoundRobin::new(3);
    let picks: Vec<usize> = (0..8).map(|_| rr.next_slot()).collect();
    assert_eq!(picks, vec![0, 1, 2, 0, 1, 2, 0, 1]);
}

#[test]
fn width_one_always_picks_zero() {
    let mut rr = RoundRobin::new(1);
    for _ in 0..5 {
        assert_eq!(rr.next_slot(), 0);
    }
}

#[test]
fn assignment_matches_index_mod_width() {
    let mut rr = RoundRobin::new(4);
    for i in 0..13usize {
        assert_eq!(rr.next_slot(), i % 4);
    }
}

#[test]
fn encoding_matches_native_little_endian() {
    for value in [0u64, 1, 255, 256, 0xdead_beef, u64::MAX] {
        assert_eq!(encode_item(value), value.to_le_bytes().to_vec());
    }
}

#[test]
fn encoding_is_fixed_width() {
    assert_eq!(encode_item(0).len(), 8);
    assert_eq!(encode_item(u64::MAX).len(), 8);
    assert_eq!(encode_item(0), vec![0; 8]);
    assert_eq!(encode_item(1), vec![1, 0, 0, 0, 0, 0, 0, 0]);
}

use remote_mem::{
    check_byte_count, containing_window, load_from_window, store_into_window, window_of,
};
use remote_mem::{AtomicWindow, Error, ATOMIC_WIDTH};

#[test]
fn window_of_aligned_address_starts_there() {
    assert_eq!(containing_window(0x1000, 8), Some(AtomicWindow { start: 0x1000, offset: 0 }));
    assert_eq!(containing_window(0x1000, 4), Some(AtomicWindow { start: 0x1000, offset: 0 }));
}

#[test]
fn window_of_value_that_would_cross_the_boundary_is_refused() {
    // 5 + 4 > 8: the value would span two windows.
    assert_eq!(containing_window(0x1005, 4), None);
    assert_eq!(containing_window(0x1007, 2), None);
}

#[test]
fn window_of_value_wider_than_atomic_width_is_refused() {
    assert_eq!(containing_window(0x1000, ATOMIC_WIDTH + 1), None);
    assert_eq!(containing_window(0, 16), None);
}

#[test]
fn window_of_address_two_past_boundary() {
    let w = containing_window(0x2002, 4).unwrap();
    assert_eq!(w, AtomicWindow { start: 0x2000, offset: 2 });
    assert_eq!(w.start % ATOMIC_WIDTH, 0);
    assert!(0x2002 + 4 <= w.start + ATOMIC_WIDTH);
}

#[test]
fn window_at_top_of_address_space() {
    let a = usize::MAX - 3;
    let w = containing_window(a, 4).unwrap();
    assert_eq!(w.start, usize::MAX - 7);
    assert_eq!(w.offset, 4);
    assert_eq!(containing_window(usize::MAX, 2), None);
    assert_eq!(containing_window(usize::MAX, 1), Some(AtomicWindow { start: usize::MAX - 7, offset: 7 }));
}

#[test]
fn store_at_offset_two_keeps_outer_bytes() {
    let window = [10u8, 11, 12, 13, 14, 15, 16, 17];
    let val = [0xaau8, 0xbb, 0xcc, 0xdd];
    let updated = store_into_window(&window, 0x3002, &val);
    assert_eq!(updated, vec![10u8, 11, 0xaa, 0xbb, 0xcc, 0xdd, 16, 17]);
    assert_eq!(load_from_window(&updated, 0x3002, 4), val.to_vec());
}

#[test]
fn store_then_load_gives_back_the_value() {
    let window = [0xffu8; 8];
    for addr in 0usize..8 {
        for len in 0usize..=(8 - addr) {
            let val: Vec<u8> = (0..len as u8).map(|b| b + 1).collect();
            let updated = store_into_window(&window, 0x40 + addr, &val);
            assert_eq!(updated.len(), 8);
            assert_eq!(load_from_window(&updated, 0x40 + addr, len), val);
            for i in 0..8 {
                if i < addr || i >= addr + len {
                    assert_eq!(updated[i], 0xff);
                }
            }
        }
    }
}

#[test]
fn load_whole_aligned_window() {
    let window = [1u8, 2, 3, 4, 5, 6, 7, 8];
    assert_eq!(load_from_window(&window, 0x80, 8), window.to_vec());
    assert_eq!(load_from_window(&window, 0x86, 2), vec![7u8, 8]);
    assert_eq!(load_from_window(&window, 0x83, 0), Vec::<u8>::new());
}

#[test]
fn short_count_is_reported_with_both_counts() {
    assert_eq!(check_byte_count(3, 8), Err(Error::ByteCount { is: 3, should: 8 }));
    assert_eq!(check_byte_count(0, 4), Err(Error::ByteCount { is: 0, should: 4 }));
    assert_eq!(check_byte_count(8, 8), Ok(()));
    assert_eq!(check_byte_count(0, 0), Ok(()));
}

#[test]
fn window_of_rounds_down_to_the_boundary() {
    assert_eq!(window_of(0x1005), AtomicWindow { start: 0x1000, offset: 5 });
    assert_eq!(window_of(0x1008), AtomicWindow { start: 0x1008, offset: 0 });
    assert_eq!(window_of(7), AtomicWindow { start: 0, offset: 7 });
}

use wallpaper_core::frame_bridge::FrameBridge;

#[test]
fn fresh_bridge_has_no_update() {
    let mut b = FrameBridge::new();
    assert!(!b.is_dirty());
    assert!(b.take_if_dirty(0).is_none());
    assert!(b.take_if_dirty(16).is_none());
}

#[test]
fn take_returns_latest_store_whole() {
    let mut b = FrameBridge::new();
    let first = vec![1u8, 2, 3, 4];
    let second = vec![9u8, 8, 7, 6];
    b.store(first);
    b.store(second);
    let got = b.take_if_dirty(4).expect("a frame is pending");
    // Last write wins, byte for byte: never the first frame, never a mixture.
    assert_eq!(got, vec![9u8, 8, 7, 6]);
}

#[test]
fn take_twice_no_update_second_time() {
    let mut b = FrameBridge::new();
    b.store(vec![5u8; 8]);
    assert!(b.take_if_dirty(8).is_some());
    assert!(b.take_if_dirty(8).is_none());
}

#[test]
fn store_after_take_delivers_again() {
    let mut b = FrameBridge::new();
    b.store(vec![1u8; 8]);
    assert!(b.take_if_dirty(8).is_some());
    b.store(vec![2u8; 8]);
    let got = b.take_if_dirty(8).expect("new frame pending");
    assert_eq!(got, vec![2u8; 8]);
}

#[test]
fn mismatched_length_skips_and_keeps_frame() {
    let mut b = FrameBridge::new();
    b.store(vec![3u8; 8]);
    // A destination of the wrong length gets nothing and consumes nothing.
    assert!(b.take_if_dirty(4).is_none());
    assert!(b.is_dirty());
    // A destination of the right length still gets the frame afterwards.
    let got = b.take_if_dirty(8).expect("frame kept");
    assert_eq!(got, vec![3u8; 8]);
}

#[test]
fn empty_frame_round_trip() {
    let mut b = FrameBridge::new();
    b.store(Vec::new());
    let got = b.take_if_dirty(0).expect("empty frame pending");
    assert!(got.is_empty());
    assert!(b.take_if_dirty(0).is_none());
}

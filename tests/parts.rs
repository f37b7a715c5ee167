use x11_event_core::devices::decode_valuators;
use x11_event_core::keyboard::{filter_valid_keycodes, track_key_repeat};
use x11_event_core::touch::{is_first_touch, TouchPhase};

#[test]
fn first_touch_bookkeeping() {
    let mut first = None;
    let mut num = 0u32;
    assert!(is_first_touch(&mut first, &mut num, 7, TouchPhase::Started));
    assert!(!is_first_touch(&mut first, &mut num, 9, TouchPhase::Started));
    assert!(is_first_touch(&mut first, &mut num, 7, TouchPhase::Moved));
    assert!(!is_first_touch(&mut first, &mut num, 7, TouchPhase::Ended));
    assert_eq!((first, num), (None, 1));
    num = u32::MAX;
    is_first_touch(&mut first, &mut num, 1, TouchPhase::Started);
    assert_eq!(num, u32::MAX);
}

#[test]
fn repeat_tracking_alone() {
    let mut held = None;
    assert!(!track_key_repeat(&mut held, 30, true, true));
    assert!(track_key_repeat(&mut held, 30, true, true));
    assert!(!track_key_repeat(&mut held, 31, true, false));
    assert_eq!(held, Some(30));
    assert!(!track_key_repeat(&mut held, 30, true, false));
    assert_eq!(held, None);
}

#[test]
fn keycodes_below_offset_are_dropped() {
    assert_eq!(filter_valid_keycodes(&vec![0, 7, 8, 255, 3]), vec![8, 255]);
    assert!(filter_valid_keycodes(&vec![]).is_empty());
}

#[test]
fn valuators_pair_with_values() {
    assert_eq!(decode_valuators(&vec![0b101, 0b1], &vec![1, 2, 3]), vec![(0, 1), (2, 2), (8, 3)]);
    assert_eq!(decode_valuators(&vec![0xff], &vec![4, 5]), vec![(0, 4), (1, 5)]);
    assert!(decode_valuators(&vec![], &vec![1]).is_empty());
}

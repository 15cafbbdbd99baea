use ndk::event::{
    key_action_from_raw, keycode_from_raw, motion_action_from_raw, pointer_index_from_raw,
    source_from_raw, ButtonState, EdgeFlags, HistoricalMotionEventsIter, HistoricalPointersIter,
    KeyAction, KeyEventFlags, Keycode, MetaState, MotionAction, MotionEventFlags, PointersIter,
    Source,
};

#[test]
fn meta_state_bits() {
    let m = MetaState(ndk::event::AMETA_ALT_ON | ndk::event::AMETA_CTRL_LEFT_ON);
    assert!(m.alt_on());
    assert!(m.ctrl_left_on());
    assert!(!m.shift_on());
    assert!(!m.meta_on());
    assert_eq!(ndk::event::AMETA_ALT_ON as i64, ndk_sys::AMETA_ALT_ON as i64);
    assert_eq!(ndk::event::AMETA_CAPS_LOCK_ON as i64, ndk_sys::AMETA_CAPS_LOCK_ON as i64);
    assert!(MetaState(ndk::event::AMETA_SCROLL_LOCK_ON).scroll_lock_on());
}

#[test]
fn button_edge_and_flag_bits() {
    let b = ButtonState(ndk::event::AMOTION_EVENT_BUTTON_PRIMARY | ndk::event::AMOTION_EVENT_BUTTON_BACK);
    assert!(b.primary());
    assert!(b.back());
    assert!(!b.secondary());
    assert!(!b.teriary());
    let e = EdgeFlags(ndk::event::AMOTION_EVENT_EDGE_FLAG_LEFT);
    assert!(e.left());
    assert!(!e.top());
    assert!(MotionEventFlags(1).window_is_obscured());
    assert!(!MotionEventFlags(0).window_is_obscured());
    let k = KeyEventFlags(ndk::event::AKEY_EVENT_FLAG_CANCELED);
    assert!(k.cancelled());
    assert!(!k.long_press());
    assert_eq!(ndk::event::AKEY_EVENT_FLAG_CANCELED as i64, ndk_sys::AKEY_EVENT_FLAG_CANCELED as i64);
}

#[test]
fn raw_event_fields() {
    assert_eq!(source_from_raw(ndk_sys::AINPUT_SOURCE_TOUCHSCREEN as i32), Source::Touchscreen);
    assert_eq!(source_from_raw(0x7fff_0000), Source::Unknown);
    assert_eq!(motion_action_from_raw(0x0105), MotionAction::PointerDown);
    assert_eq!(pointer_index_from_raw(0x0105), 1);
    assert_eq!(pointer_index_from_raw(0x0306), 3);
    assert_eq!(pointer_index_from_raw(0), 0);
    assert_eq!(
        ndk::event::AMOTION_EVENT_ACTION_POINTER_INDEX_SHIFT as i64,
        ndk_sys::AMOTION_EVENT_ACTION_POINTER_INDEX_SHIFT as i64
    );
    assert_eq!(key_action_from_raw(1), KeyAction::Up);
    assert_eq!(keycode_from_raw(29), Keycode::A);
    assert_eq!(keycode_from_raw(100_000), Keycode::Unknown);
}

#[test]
fn pointers_iter_counts_up() {
    let mut it = PointersIter::new(3);
    assert_eq!(it.len(), 3);
    assert_eq!(it.next(), Some(0));
    assert_eq!(it.next(), Some(1));
    assert_eq!(it.len(), 1);
    assert_eq!(it.next(), Some(2));
    assert_eq!(it.next(), None);
    assert_eq!(it.len(), 0);
}

#[test]
fn historical_events_iter_both_ends() {
    let mut it = HistoricalMotionEventsIter::new(4);
    assert_eq!(it.next(), Some(0));
    assert_eq!(it.next_back(), Some(3));
    assert_eq!(it.len(), 2);
    assert_eq!(it.next_back(), Some(2));
    assert_eq!(it.next(), Some(1));
    assert_eq!(it.next(), None);
    assert_eq!(it.next_back(), None);
}

#[test]
fn historical_pointers_iter() {
    let mut it = HistoricalPointersIter::new(5, 2);
    assert_eq!(it.history_index(), 5);
    assert_eq!(it.len(), 2);
    assert_eq!(it.next(), Some(0));
    assert_eq!(it.next(), Some(1));
    assert_eq!(it.next(), None);
    assert_eq!(it.history_index(), 5);
}

#[test]
fn historical_events_walk_from_both_ends() {
    let n = 6;
    let mut it = HistoricalMotionEventsIter::new(n);
    let mut front = Vec::new();
    let mut back = Vec::new();
    for (k, from_front) in [false, true, true, false, true, false, true, false].into_iter().enumerate() {
        let got = if from_front { it.next() } else { it.next_back() };
        if k < n {
            let index = got.unwrap();
            if from_front {
                front.push(index);
            } else {
                back.push(index);
            }
            assert_eq!(it.len(), n - k - 1);
        } else {
            assert_eq!(got, None);
            assert_eq!(it.len(), 0);
        }
    }
    assert_eq!(front, vec![0, 1, 2]);
    assert_eq!(back, vec![5, 4, 3]);
}

use vimium_linux::click::ScrollDirection;
use vimium_linux::scroll::{ScrollRequest, ScrollState};
use vimium_linux::selection::Modifiers;

fn request(direction: ScrollDirection, amount: i32) -> Option<ScrollRequest> {
    Some(ScrollRequest { direction, amount })
}

#[test]
fn a_new_scroll_state() {
    let state = ScrollState::new(3, 4, 50, 500);
    assert_eq!((state.target_x, state.target_y), (3, 4));
    assert_eq!((state.scroll_step, state.page_step), (50, 500));
    assert_eq!(state.modifiers, Modifiers { shift: false, ctrl: false });
    assert!(!state.exit);
}

#[test]
fn keys_scroll_by_a_step() {
    let mut state = ScrollState::new(3, 4, 50, 500);
    for (keysym, direction) in [
        (0x68, ScrollDirection::Left),
        (0xff51, ScrollDirection::Left),
        (0x6a, ScrollDirection::Down),
        (0xff54, ScrollDirection::Down),
        (0x6b, ScrollDirection::Up),
        (0xff52, ScrollDirection::Up),
        (0x6c, ScrollDirection::Right),
        (0xff53, ScrollDirection::Right),
    ] {
        assert_eq!(state.handle_key(keysym), request(direction, 50));
        assert!(!state.exit);
    }
    assert_eq!(state, ScrollState::new(3, 4, 50, 500));
}

#[test]
fn control_turns_steps_into_pages() {
    let mut state = ScrollState::new(3, 4, 50, 500);
    state.update_modifiers(Modifiers { shift: false, ctrl: true });
    assert_eq!(state.handle_key(0x6a), request(ScrollDirection::Down, 500));
    assert_eq!(state.handle_key(0xff51), request(ScrollDirection::Left, 500));
    assert_eq!(state.handle_key(0x64), request(ScrollDirection::Down, 500));
    assert_eq!(state.handle_key(0x75), request(ScrollDirection::Up, 500));
    state.update_modifiers(Modifiers { shift: true, ctrl: false });
    assert_eq!(state.handle_key(0x6a), request(ScrollDirection::Down, 50));
    assert_eq!(state.handle_key(0x64), None);
    assert_eq!(state.handle_key(0x75), None);
    assert!(!state.exit);
}

#[test]
fn far_keys() {
    let mut state = ScrollState::new(3, 4, 50, 500);
    assert_eq!(state.handle_key(0x67), request(ScrollDirection::Up, 10000));
    assert_eq!(state.handle_key(0x47), request(ScrollDirection::Down, 10000));
    state.update_modifiers(Modifiers { shift: false, ctrl: true });
    assert_eq!(state.handle_key(0x67), request(ScrollDirection::Up, 10000));
}

#[test]
fn escape_and_q_leave() {
    for keysym in [0xff1b, 0x71] {
        let mut state = ScrollState::new(3, 4, 50, 500);
        assert_eq!(state.handle_key(keysym), None);
        assert!(state.exit);
        // Keys still say what they would scroll; leaving is for the caller.
        assert_eq!(state.handle_key(0x6a), request(ScrollDirection::Down, 50));
        assert!(state.exit);
    }
}

#[test]
fn other_keys_do_nothing() {
    let mut state = ScrollState::new(3, 4, 50, 500);
    for keysym in [0, 0x20, 0x61, 0x48, 0x4a, 0xff0d, 0xff08, 0x51, u32::MAX] {
        assert_eq!(state.handle_key(keysym), None);
    }
    assert_eq!(state, ScrollState::new(3, 4, 50, 500));
}

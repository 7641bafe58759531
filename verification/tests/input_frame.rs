use illuminator::Button;
use illuminator::Event;
use illuminator::FrameLoop;
use illuminator::Input;
use illuminator::frame::WM_EXITSIZEMOVE;
use illuminator::frame::WM_MOUSEMOVE;
use illuminator::frame::WM_QUIT;
use illuminator::frame::classify_message;
use illuminator::input::key_state_is_down;

#[test]
fn just_pressed_only_on_the_edge() {
    let mut b = Button::default();
    assert!(!b.is_pressed());
    assert!(!b.just_pressed());
    b.update(true);
    assert!(b.just_pressed());
    b.update(true);
    assert!(b.is_pressed());
    assert!(!b.just_pressed());
    b.update(false);
    b.update(true);
    assert!(b.just_pressed());
}

#[test]
fn sample_sequence_false_true_true_false() {
    let mut input = Input::default();
    let samples = [false, true, true, false];
    let expected_just = [false, true, false, false];
    let expected_pressed = [false, true, true, false];
    for i in 0..4 {
        let s = samples[i];
        input.update_buttons(s, false, false, false, false, false);
        assert_eq!(input.mouse.left.just_pressed(), expected_just[i]);
        assert_eq!(input.mouse.left.is_pressed(), expected_pressed[i]);
    }
}

#[test]
fn update_buttons_feeds_each_tracked_button() {
    let mut input = Input::default();
    input.update_buttons(true, false, true, false, true, false);
    assert!(input.mouse.left.is_pressed());
    assert!(!input.mouse.right.is_pressed());
    assert!(input.keyboard.left.is_pressed());
    assert!(!input.keyboard.right.is_pressed());
    assert!(input.keyboard.down.is_pressed());
    assert!(!input.keyboard.up.is_pressed());
}

#[test]
fn key_state_word_sign_bit_means_down() {
    assert!(key_state_is_down(i16::MIN));
    assert!(key_state_is_down(-1));
    assert!(!key_state_is_down(0));
    assert!(!key_state_is_down(1));
    assert!(!key_state_is_down(i16::MAX));
}

#[test]
fn classify_quit_resize_move_other() {
    assert_eq!(classify_message(WM_QUIT, 0), Event::Quit);
    assert_eq!(classify_message(WM_EXITSIZEMOVE, 0), Event::ResizeFinished);
    let lparam = (45u64 << 16) | 120u64;
    assert_eq!(
        classify_message(WM_MOUSEMOVE, lparam),
        Event::PointerMove { x: 120, y: 45 }
    );
    // An unrelated message (key down) is left to default handling.
    assert_eq!(classify_message(0x0100, 0), Event::Other);
    // Only the low two 16-bit words carry coordinates; higher bits are noise.
    let noisy = 0xdead_beef_0005_0003u64;
    assert_eq!(
        classify_message(WM_MOUSEMOVE, noisy),
        Event::PointerMove { x: 3, y: 5 }
    );
}

#[test]
fn pointer_move_updates_mouse_immediately() {
    let mut fl = FrameLoop::new(8, 8).unwrap();
    fl.process_event(Event::PointerMove { x: 120, y: 45 });
    assert_eq!(fl.input.mouse.x, 120);
    assert_eq!(fl.input.mouse.y, 45);
    // The button edge-state is untouched until the per-frame sampling runs.
    assert!(!fl.input.mouse.left.is_pressed());
    // Of several moves in one frame, the last value wins.
    fl.process_event(Event::PointerMove { x: 3, y: 9 });
    assert_eq!(fl.input.mouse.x, 3);
    assert_eq!(fl.input.mouse.y, 9);
}

#[test]
fn quit_terminates_before_further_frame_work() {
    let mut fl = FrameLoop::new(8, 8).unwrap();
    assert!(!fl.is_terminated());
    fl.process_event(Event::Quit);
    assert!(fl.is_terminated());
    // Termination is absorbing: later events cannot revive the loop.
    fl.process_event(Event::ResizeFinished);
    fl.process_event(Event::Other);
    assert!(fl.is_terminated());
}

#[test]
fn resize_event_sets_pending_and_apply_clears_it() {
    let mut fl = FrameLoop::new(4, 4).unwrap();
    // The first frame always adopts the real client size.
    assert!(fl.is_resize_pending());
    fl.apply_resize(640, 480).unwrap();
    assert!(!fl.is_resize_pending());
    assert_eq!(fl.bitmap.data().len(), 640 * 480);
    // Without a pending resize the surface keeps its size.
    fl.apply_resize(100, 100).unwrap();
    assert_eq!(fl.bitmap.data().len(), 640 * 480);
    fl.process_event(Event::ResizeFinished);
    assert!(fl.is_resize_pending());
    fl.apply_resize(100, 100).unwrap();
    assert_eq!(fl.bitmap.data().len(), 100 * 100);
}

#[test]
fn first_frame_dt_is_zero_and_dt_never_negative() {
    let mut fl = FrameLoop::new(4, 4).unwrap();
    assert_eq!(fl.advance_time(1_000_000), 0);
    assert_eq!(fl.advance_time(1_500_000), 500_000);
    // A clock that reads backwards yields zero, not a wrapped value.
    assert_eq!(fl.advance_time(1_200_000), 0);
    assert_eq!(fl.advance_time(1_300_000), 100_000);
}

#[test]
fn zero_area_resize_skips_presentation_instead_of_crashing() {
    let mut fl = FrameLoop::new(16, 16).unwrap();
    fl.apply_resize(16, 16).unwrap();
    assert!(fl.can_present());
    // A minimized window reports a zero client area.
    fl.process_event(Event::ResizeFinished);
    fl.apply_resize(0, 300).unwrap();
    assert!(!fl.can_present());
    fl.process_event(Event::ResizeFinished);
    fl.apply_resize(300, 0).unwrap();
    assert!(!fl.can_present());
    // Restoring the window brings presentation back.
    fl.process_event(Event::ResizeFinished);
    fl.apply_resize(300, 200).unwrap();
    assert!(fl.can_present());
}

use fprint_prompt::bridge::{BusArg, BusMessage, FprintEvent, MessageType};
use fprint_prompt::canvas::{BufferLayout, Damage};
use fprint_prompt::geometry::{Anchor, PositionInfo};
use fprint_prompt::input::{Capability, PointerEvent, PointerEventKind, KEYSYM_ESCAPE};
use fprint_prompt::layer::SimpleLayer;
use fprint_prompt::state::{Phase, FALLBACK_EXTENT};

const FPRINT: &str = "net.reactivated.Fprint.Device";

/// A bar along the right edge: 8 wide, 8 long, 100 away from the top.
fn side_bar() -> PositionInfo {
    PositionInfo::new(8, 8, Anchor::Right, Anchor::Top, 100).unwrap()
}

fn fresh() -> SimpleLayer {
    SimpleLayer::new(side_bar())
}

/// An overlay that the compositor has placed at `width` by `height`.
fn live(width: u32, height: u32) -> SimpleLayer {
    let mut layer = fresh();
    layer.initial_commit();
    assert!(layer.configure(width, height));
    layer
}

/// Draws the frame that is due, after the compositor's call where the
/// frame before is still to be answered.
fn draw_frame(layer: &mut SimpleLayer, canvas: &mut [u8]) {
    if !layer.frame_due() {
        assert!(layer.frame());
    }
    assert!(layer.frame_due());
    layer.draw(canvas);
    assert!(!layer.frame_due());
}

/// Everything that can be told of an overlay from outside.
fn snapshot(
    layer: &SimpleLayer,
) -> (PositionInfo, Phase, (u32, u32), bool, Option<u32>, Option<String>, u32, bool, bool, bool, bool)
{
    (
        layer.pos(),
        layer.phase(),
        (layer.width(), layer.height()),
        layer.frame_due(),
        layer.shift(),
        layer.prompt().map(str::to_string),
        layer.scale120(),
        layer.exit_requested(),
        layer.keyboard_focus(),
        layer.has_keyboard(),
        layer.has_pointer(),
    )
}

fn press() -> PointerEvent {
    PointerEvent { on_surface: true, kind: PointerEventKind::Press }
}

fn signal(interface: &str, member: &str, args: Vec<BusArg>) -> BusMessage {
    BusMessage {
        msg_type: MessageType::Signal,
        interface: Some(interface.to_string()),
        member: Some(member.to_string()),
        args,
    }
}

fn finger_selected(name: &str) -> BusMessage {
    signal(FPRINT, "VerifyFingerSelected", vec![BusArg::Str(name.to_string())])
}

fn verify_status(result: &str, done: bool) -> BusMessage {
    signal(FPRINT, "VerifyStatus", vec![BusArg::Str(result.to_string()), BusArg::Bool(done)])
}

fn pixel(canvas: &[u8], index: usize) -> u32 {
    u32::from_le_bytes([
        canvas[4 * index],
        canvas[4 * index + 1],
        canvas[4 * index + 2],
        canvas[4 * index + 3],
    ])
}

#[test]
fn a_new_overlay_is_idle_and_sized_by_its_geometry() {
    let layer = fresh();
    assert_eq!(layer.phase(), Phase::Unconfigured);
    assert_eq!(layer.pos(), side_bar());
    assert_eq!((layer.width(), layer.height()), (8, 108));
    assert_eq!(layer.shift(), None);
    assert_eq!(layer.prompt(), None);
    assert_eq!(layer.scale120(), 120);
    assert!(!layer.exit_requested());
    assert!(!layer.keyboard_focus());
    assert!(!layer.has_keyboard());
    assert!(!layer.has_pointer());
    assert!(!layer.is_live());
    assert!(!layer.frame_due());
    assert!(!layer.should_exit());
}

#[test]
fn the_first_size_after_the_commit_brings_the_surface_to_life() {
    let mut layer = fresh();
    layer.initial_commit();
    assert_eq!(layer.phase(), Phase::AwaitingFirstConfigure);
    assert!(!layer.is_live());
    assert!(layer.configure(8, 108));
    assert_eq!(layer.phase(), Phase::Live);
    assert!(layer.is_live());
}

#[test]
fn the_first_frame_is_due_with_the_first_size() {
    let mut layer = fresh();
    assert!(!layer.frame_due());
    layer.initial_commit();
    assert!(!layer.frame_due());
    assert!(layer.configure(8, 108));
    assert!(layer.frame_due());
}

#[test]
fn frames_and_the_compositors_calls_take_turns() {
    let mut layer = live(8, 108);
    let mut canvas = vec![0u8; 8 * 108 * 4];
    for _ in 0..3 {
        assert!(layer.frame_due());
        layer.draw(&mut canvas);
        assert!(!layer.frame_due());
        assert!(!layer.configure(8, 108));
        assert!(!layer.frame_due());
        assert!(layer.frame());
    }
}

#[test]
fn no_frame_answers_a_call_that_comes_after_the_close() {
    let mut layer = live(8, 108);
    let mut canvas = vec![0u8; 8 * 108 * 4];
    layer.draw(&mut canvas);
    layer.closed();
    assert!(!layer.frame());
    assert!(!layer.frame_due());
    assert_eq!(layer.phase(), Phase::Closed);
}

#[test]
fn later_sizes_ask_for_no_frame() {
    let mut layer = live(8, 108);
    assert!(!layer.configure(16, 216));
    assert_eq!((layer.width(), layer.height()), (16, 216));
    assert!(!layer.configure(0, 0));
    assert_eq!(layer.phase(), Phase::Live);
}

#[test]
fn a_size_before_the_commit_is_stored_and_no_more() {
    let mut layer = fresh();
    assert!(!layer.configure(20, 30));
    assert_eq!(layer.phase(), Phase::Unconfigured);
    assert_eq!((layer.width(), layer.height()), (20, 30));
    layer.initial_commit();
    assert!(layer.configure(20, 30));
}

#[test]
fn a_second_commit_changes_nothing() {
    let mut layer = live(8, 108);
    layer.initial_commit();
    assert_eq!(layer.phase(), Phase::Live);
    layer.closed();
    layer.initial_commit();
    assert_eq!(layer.phase(), Phase::Closed);
}

#[test]
fn a_size_left_open_falls_back_to_256_by_256() {
    let layer = live(0, 0);
    assert_eq!((layer.width(), layer.height()), (256, 256));
    assert_eq!(FALLBACK_EXTENT, 256);
}

#[test]
fn a_size_left_half_open_falls_back_too() {
    let layer = live(0, 5);
    assert_eq!((layer.width(), layer.height()), (256, 256));
    let layer = live(5, 0);
    assert_eq!((layer.width(), layer.height()), (256, 256));
}

#[test]
fn a_full_size_is_stored_as_it_stands() {
    for (width, height) in [(1, 1), (8, 108), (640, 480), (256, 256), (u32::MAX, u32::MAX)] {
        let layer = live(width, height);
        assert_eq!((layer.width(), layer.height()), (width, height));
    }
}

#[test]
fn the_same_size_twice_is_the_same_as_once() {
    for (width, height) in [(0, 0), (0, 7), (8, 108), (640, 480)] {
        let mut layer = live(8, 108);
        layer.configure(width, height);
        let once = snapshot(&layer);
        layer.configure(width, height);
        assert_eq!(snapshot(&layer), once);

        let mut layer = fresh();
        layer.initial_commit();
        layer.configure(width, height);
        let once = snapshot(&layer);
        layer.configure(width, height);
        assert_eq!(snapshot(&layer), once);
    }
}

#[test]
fn a_closed_surface_stays_closed() {
    let mut layer = live(8, 108);
    layer.closed();
    assert_eq!(layer.phase(), Phase::Closed);
    assert!(layer.should_exit());
    assert!(!layer.is_live());
    assert!(!layer.configure(8, 108));
    layer.initial_commit();
    layer.pointer_frame(&[press()]);
    layer.press_key(0x61);
    layer.preferred_scale(240);
    layer.bus_message(&finger_selected("left-thumb"));
    layer.closed();
    assert_eq!(layer.phase(), Phase::Closed);
    assert!(layer.should_exit());
}

#[test]
fn a_surface_can_be_closed_before_it_was_placed() {
    let mut layer = fresh();
    layer.closed();
    assert_eq!(layer.phase(), Phase::Closed);
    assert!(layer.should_exit());
    layer.initial_commit();
    assert!(!layer.configure(8, 108));
    assert_eq!(layer.phase(), Phase::Closed);
}

#[test]
fn escape_asks_for_the_end() {
    let mut layer = live(8, 108);
    layer.press_key(0x61);
    layer.press_key(0xff0d);
    assert!(!layer.exit_requested());
    assert!(!layer.should_exit());
    layer.press_key(KEYSYM_ESCAPE);
    assert!(layer.exit_requested());
    assert!(layer.should_exit());
    assert!(layer.is_live());
    layer.press_key(0x61);
    assert!(layer.should_exit());
    assert_eq!(KEYSYM_ESCAPE, 0xff1b);
}

#[test]
fn focus_follows_the_overlays_own_surface() {
    let mut layer = live(8, 108);
    layer.enter(false);
    assert!(!layer.keyboard_focus());
    layer.enter(true);
    assert!(layer.keyboard_focus());
    layer.leave(false);
    assert!(layer.keyboard_focus());
    layer.leave(true);
    assert!(!layer.keyboard_focus());
}

#[test]
fn a_device_is_taken_up_once() {
    let mut layer = fresh();
    assert!(layer.new_capability(Capability::Keyboard));
    assert!(layer.has_keyboard());
    assert!(!layer.has_pointer());
    assert!(!layer.new_capability(Capability::Keyboard));
    assert!(layer.new_capability(Capability::Pointer));
    assert!(!layer.new_capability(Capability::Pointer));
    assert!(layer.has_pointer());
    assert!(!layer.new_capability(Capability::Touch));
}

#[test]
fn a_device_is_released_only_where_it_is_held() {
    let mut layer = fresh();
    assert!(!layer.remove_capability(Capability::Keyboard));
    assert!(!layer.remove_capability(Capability::Pointer));
    assert!(!layer.remove_capability(Capability::Touch));
    layer.new_capability(Capability::Keyboard);
    layer.new_capability(Capability::Pointer);
    assert!(layer.remove_capability(Capability::Keyboard));
    assert!(!layer.has_keyboard());
    assert!(layer.has_pointer());
    assert!(!layer.remove_capability(Capability::Keyboard));
    assert!(layer.remove_capability(Capability::Pointer));
    assert!(layer.new_capability(Capability::Keyboard));
}

#[test]
fn a_press_starts_and_stops_the_animation() {
    let mut layer = live(8, 108);
    layer.pointer_frame(&[press()]);
    assert_eq!(layer.shift(), Some(0));
    layer.pointer_frame(&[press()]);
    assert_eq!(layer.shift(), None);
    layer.pointer_frame(&[press()]);
    assert_eq!(layer.shift(), Some(0));
}

#[test]
fn only_presses_over_the_overlay_count() {
    let mut layer = live(8, 108);
    layer.pointer_frame(&[]);
    layer.pointer_frame(&[
        PointerEvent { on_surface: false, kind: PointerEventKind::Press },
        PointerEvent { on_surface: true, kind: PointerEventKind::Enter },
        PointerEvent { on_surface: true, kind: PointerEventKind::Motion },
        PointerEvent { on_surface: true, kind: PointerEventKind::Release },
        PointerEvent { on_surface: true, kind: PointerEventKind::Axis },
        PointerEvent { on_surface: true, kind: PointerEventKind::Leave },
    ]);
    assert_eq!(layer.shift(), None);
}

#[test]
fn presses_in_one_group_are_taken_in_order() {
    let release = PointerEvent { on_surface: true, kind: PointerEventKind::Release };
    let mut layer = live(8, 108);
    layer.pointer_frame(&[press(), release, press()]);
    assert_eq!(layer.shift(), None);
    layer.pointer_frame(&[press(), release, press(), release, press()]);
    assert_eq!(layer.shift(), Some(0));
}

#[test]
fn two_presses_restart_a_running_animation() {
    let mut layer = live(8, 108);
    let mut canvas = vec![0u8; 8 * 108 * 4];
    layer.pointer_frame(&[press()]);
    for _ in 0..5 {
        draw_frame(&mut layer, &mut canvas);
    }
    assert_eq!(layer.shift(), Some(5));
    layer.pointer_frame(&[press(), press()]);
    assert_eq!(layer.shift(), Some(0));
}

#[test]
fn nine_frames_on_a_surface_eight_wide_wrap_to_one() {
    let mut layer = live(8, 108);
    let mut canvas = vec![0u8; 8 * 108 * 4];
    layer.pointer_frame(&[press()]);
    assert_eq!(layer.shift(), Some(0));
    let mut seen = Vec::new();
    for _ in 0..9 {
        draw_frame(&mut layer, &mut canvas);
        seen.push(layer.shift());
    }
    assert_eq!(
        seen,
        vec![Some(1), Some(2), Some(3), Some(4), Some(5), Some(6), Some(7), Some(0), Some(1)]
    );
}

#[test]
fn an_idle_animation_stays_idle() {
    let mut layer = live(8, 108);
    let mut canvas = vec![0u8; 8 * 108 * 4];
    draw_frame(&mut layer, &mut canvas);
    draw_frame(&mut layer, &mut canvas);
    assert_eq!(layer.shift(), None);
}

#[test]
fn the_animation_wraps_around_the_width_of_the_moment() {
    let mut layer = live(8, 108);
    let mut canvas = vec![0u8; 8 * 108 * 4];
    layer.pointer_frame(&[press()]);
    for _ in 0..6 {
        draw_frame(&mut layer, &mut canvas);
    }
    assert_eq!(layer.shift(), Some(6));
    layer.configure(4, 108);
    draw_frame(&mut layer, &mut canvas);
    assert_eq!(layer.shift(), Some(3));
    layer.configure(1, 1);
    draw_frame(&mut layer, &mut canvas);
    assert_eq!(layer.shift(), Some(0));
}

#[test]
fn the_animation_moves_with_or_without_a_prompt() {
    let mut layer = live(8, 108);
    let mut canvas = vec![0u8; 8 * 108 * 4];
    layer.pointer_frame(&[press()]);
    draw_frame(&mut layer, &mut canvas);
    assert_eq!(layer.shift(), Some(1));
    layer.bus_message(&finger_selected("left-thumb"));
    draw_frame(&mut layer, &mut canvas);
    assert_eq!(layer.shift(), Some(2));
}

#[test]
fn the_animation_leaves_the_picture_alone() {
    let mut still = live(8, 108);
    let mut moving = live(8, 108);
    still.bus_message(&finger_selected("left-thumb"));
    moving.bus_message(&finger_selected("left-thumb"));
    moving.pointer_frame(&[press()]);
    let mut first = vec![0u8; 8 * 108 * 4];
    let mut second = vec![0u8; 8 * 108 * 4];
    for _ in 0..3 {
        draw_frame(&mut still, &mut first);
        draw_frame(&mut moving, &mut second);
        assert_eq!(first, second);
    }
}

#[test]
fn scale_two_asks_for_half_the_geometry() {
    let pos = PositionInfo::new(8, 100, Anchor::Top, Anchor::Left, 0).unwrap();
    assert_eq!(pos.size(), (100, 8));
    let mut layer = SimpleLayer::new(pos);
    assert_eq!(layer.preferred_scale(240), Some((50, 4)));
    assert_eq!(layer.scale120(), 240);
}

#[test]
fn the_size_to_ask_for_goes_by_the_geometry_not_by_the_surface() {
    let mut layer = live(640, 480);
    assert_eq!(layer.preferred_scale(240), Some((4, 54)));
    assert_eq!((layer.width(), layer.height()), (640, 480));
    assert_eq!(layer.preferred_scale(120), Some((8, 108)));
    assert_eq!(layer.preferred_scale(180), Some((6, 72)));
    assert_eq!(layer.preferred_scale(150), Some((7, 87)));
    assert_eq!(layer.scale120(), 150);
}

#[test]
fn a_scale_asks_for_no_frame_and_keeps_the_phase() {
    let mut layer = fresh();
    layer.initial_commit();
    layer.preferred_scale(240);
    assert_eq!(layer.phase(), Phase::AwaitingFirstConfigure);
    assert!(layer.configure(4, 54));
}

#[test]
fn a_scale_of_zero_is_passed_over() {
    let mut layer = live(8, 108);
    layer.preferred_scale(240);
    assert_eq!(layer.preferred_scale(0), None);
    assert_eq!(layer.scale120(), 240);
}

#[test]
fn a_scale_too_small_to_follow_is_passed_over() {
    let pos = PositionInfo::new(8, u32::MAX, Anchor::Top, Anchor::Left, 0).unwrap();
    let mut layer = SimpleLayer::new(pos);
    assert_eq!(layer.preferred_scale(120), None);
    assert_eq!(layer.preferred_scale(239), None);
    assert_eq!(layer.scale120(), 120);
    assert_eq!(layer.preferred_scale(241), Some((2_138_572_927, 4)));
    assert_eq!(layer.scale120(), 241);
}

#[test]
fn a_selected_finger_becomes_the_prompt() {
    let mut layer = live(8, 108);
    layer.bus_message(&finger_selected("right-index-finger"));
    assert_eq!(layer.prompt(), Some("right-index-finger"));
    layer.bus_message(&finger_selected("left-thumb"));
    assert_eq!(layer.prompt(), Some("left-thumb"));
}

#[test]
fn a_verification_that_is_over_ends_the_prompt() {
    let mut layer = live(8, 108);
    layer.bus_message(&verify_status("verify-match", true));
    assert_eq!(layer.prompt(), None);
    layer.bus_message(&finger_selected("right-index-finger"));
    layer.bus_message(&verify_status("verify-match", true));
    assert_eq!(layer.prompt(), None);
    layer.bus_message(&finger_selected("right-index-finger"));
    layer.bus_message(&verify_status("verify-no-match", true));
    assert_eq!(layer.prompt(), None);
}

#[test]
fn a_verification_that_goes_on_keeps_the_prompt() {
    let mut layer = live(8, 108);
    layer.bus_message(&finger_selected("right-index-finger"));
    layer.bus_message(&verify_status("verify-retry-scan", false));
    assert_eq!(layer.prompt(), Some("right-index-finger"));
}

#[test]
fn events_can_be_applied_as_they_are() {
    let mut layer = live(8, 108);
    layer.apply_event(FprintEvent::VerifyFingerSelected {
        finger_name: Some("left-thumb".to_string()),
    });
    assert_eq!(layer.prompt(), Some("left-thumb"));
    layer.apply_event(FprintEvent::VerifyStatus { result: None, done: None });
    assert_eq!(layer.prompt(), Some("left-thumb"));
    layer.apply_event(FprintEvent::VerifyStatus { result: None, done: Some(false) });
    assert_eq!(layer.prompt(), Some("left-thumb"));
    layer.apply_event(FprintEvent::VerifyStatus { result: None, done: Some(true) });
    assert_eq!(layer.prompt(), None);
    layer.apply_event(FprintEvent::VerifyFingerSelected {
        finger_name: Some("left-thumb".to_string()),
    });
    layer.apply_event(FprintEvent::VerifyFingerSelected { finger_name: None });
    assert_eq!(layer.prompt(), None);
}

#[test]
fn signals_of_the_bus_itself_change_nothing() {
    for member in ["VerifyFingerSelected", "VerifyStatus", "NameAcquired"] {
        let mut layer = live(8, 108);
        layer.bus_message(&finger_selected("right-index-finger"));
        layer.pointer_frame(&[press()]);
        layer.new_capability(Capability::Keyboard);
        layer.enter(true);
        let before = snapshot(&layer);
        let msg = signal(
            "org.freedesktop.DBus",
            member,
            vec![BusArg::Str("left-thumb".to_string()), BusArg::Bool(true)],
        );
        layer.bus_message(&msg);
        assert_eq!(snapshot(&layer), before);
        assert_eq!(layer.prompt(), Some("right-index-finger"));
    }
}

#[test]
fn the_bus_changes_nothing_but_the_prompt() {
    let mut layer = live(8, 108);
    layer.pointer_frame(&[press()]);
    let mut before = snapshot(&layer);
    layer.bus_message(&finger_selected("left-thumb"));
    before.5 = Some("left-thumb".to_string());
    assert_eq!(snapshot(&layer), before);
    layer.bus_message(&verify_status("verify-match", true));
    before.5 = None;
    assert_eq!(snapshot(&layer), before);
}

#[test]
fn a_signal_without_its_arguments_changes_nothing() {
    let mut layer = live(8, 108);
    layer.bus_message(&finger_selected("right-index-finger"));
    let before = snapshot(&layer);
    layer.bus_message(&signal(FPRINT, "VerifyFingerSelected", vec![]));
    assert_eq!(snapshot(&layer), before);
    layer.bus_message(&signal(FPRINT, "VerifyStatus", vec![BusArg::Other, BusArg::Bool(true)]));
    assert_eq!(snapshot(&layer), before);
    assert_eq!(layer.prompt(), Some("right-index-finger"));
}

#[test]
fn without_a_prompt_the_frame_is_clear() {
    let mut layer = live(8, 108);
    let mut canvas = vec![0xC3u8; 8 * 108 * 4];
    draw_frame(&mut layer, &mut canvas);
    assert_eq!(canvas, vec![0u8; 8 * 108 * 4]);
}

#[test]
fn with_a_prompt_the_rows_below_the_offset_are_white() {
    let mut layer = live(8, 108);
    layer.bus_message(&finger_selected("right-index-finger"));
    let mut canvas = vec![0xC3u8; 8 * 108 * 4];
    draw_frame(&mut layer, &mut canvas);
    assert_eq!(canvas.len(), 8 * 108 * 4);
    for y in 0..108 {
        for x in 0..8 {
            let want = if y < 100 { 0x0000_0000 } else { 0xFFFF_FFFF };
            assert_eq!(pixel(&canvas, y * 8 + x), want, "pixel ({x}, {y})");
        }
    }
}

#[test]
fn the_frame_goes_by_the_size_of_the_surface() {
    let mut layer = live(4, 216);
    layer.bus_message(&finger_selected("right-index-finger"));
    let mut canvas = vec![0u8; 4 * 216 * 4];
    draw_frame(&mut layer, &mut canvas);
    for y in 0..216 {
        for x in 0..4 {
            let want = if y < 100 { 0x0000_0000 } else { 0xFFFF_FFFF };
            assert_eq!(pixel(&canvas, y * 4 + x), want, "pixel ({x}, {y})");
        }
    }
}

#[test]
fn the_prompt_shows_from_the_next_frame_on() {
    let mut layer = live(8, 108);
    let mut canvas = vec![0u8; 8 * 108 * 4];
    draw_frame(&mut layer, &mut canvas);
    let clear = canvas.clone();
    layer.bus_message(&finger_selected("right-index-finger"));
    assert_eq!(canvas, clear);
    draw_frame(&mut layer, &mut canvas);
    assert_eq!(pixel(&canvas, 100 * 8), 0xFFFF_FFFF);
    layer.bus_message(&verify_status("verify-match", true));
    draw_frame(&mut layer, &mut canvas);
    assert_eq!(canvas, clear);
}

#[test]
fn every_frame_changes_the_whole_surface() {
    let mut layer = live(8, 108);
    let mut canvas = vec![0u8; 8 * 108 * 4];
    assert_eq!(layer.draw(&mut canvas), Damage { x: 0, y: 0, width: 8, height: 108 });
    layer.configure(0, 0);
    assert!(layer.frame());
    let mut canvas = vec![0u8; 256 * 256 * 4];
    assert_eq!(layer.draw(&mut canvas), Damage { x: 0, y: 0, width: 256, height: 256 });
}

#[test]
fn the_buffer_is_laid_out_for_the_surface() {
    let mut layer = live(8, 108);
    assert_eq!(
        layer.buffer_layout(),
        Some(BufferLayout { width: 8, height: 108, stride: 32, len: 3456 })
    );
    layer.configure(0, 0);
    assert_eq!(
        layer.buffer_layout(),
        Some(BufferLayout { width: 256, height: 256, stride: 1024, len: 262_144 })
    );
    layer.configure(u32::MAX, 1);
    assert_eq!(layer.buffer_layout(), None);
}

#[test]
fn a_turn_takes_the_waiting_message_and_tells_whether_to_end() {
    let mut layer = live(8, 108);
    assert!(!layer.end_turn(None));
    assert_eq!(layer.prompt(), None);
    let msg = finger_selected("right-index-finger");
    assert!(!layer.end_turn(Some(&msg)));
    assert_eq!(layer.prompt(), Some("right-index-finger"));
    layer.press_key(KEYSYM_ESCAPE);
    let msg = verify_status("verify-match", true);
    assert!(layer.end_turn(Some(&msg)));
    assert_eq!(layer.prompt(), None);
}

#[test]
fn a_turn_ends_the_loop_once_the_surface_is_closed() {
    let mut layer = live(8, 108);
    layer.closed();
    assert!(layer.end_turn(None));
    assert!(layer.end_turn(Some(&finger_selected("left-thumb"))));
}

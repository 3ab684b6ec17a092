use ferrousgl::window::multisample_warning;
use ferrousgl::gl_types::to_signed;
use ferrousgl::FrameEffect;
use ferrousgl::GlWindow;
use ferrousgl::KeyAction;
use ferrousgl::KeySnapshot;
use ferrousgl::RenderingType;
use ferrousgl::ScrollDelta;
use ferrousgl::TypedCharacterBuffer;
use ferrousgl::WindowConfig;
use ferrousgl::WindowEvent;
use ferrousgl::WindowHints;
use ferrousgl::WindowKey;

fn press(key: WindowKey) -> WindowEvent {
    WindowEvent::Key { key, action: KeyAction::Press }
}

fn repeat(key: WindowKey) -> WindowEvent {
    WindowEvent::Key { key, action: KeyAction::Repeat }
}

fn release(key: WindowKey) -> WindowEvent {
    WindowEvent::Key { key, action: KeyAction::Release }
}

fn scroll(x: f64, y: f64) -> WindowEvent {
    WindowEvent::Scroll { x_bits: x.to_bits(), y_bits: y.to_bits() }
}

fn typed(codepoint: char) -> WindowEvent {
    WindowEvent::Char { codepoint }
}

fn offsets(delta: ScrollDelta) -> (f64, f64) {
    (f64::from_bits(delta.x_bits), f64::from_bits(delta.y_bits))
}

fn window() -> GlWindow {
    GlWindow::new(WindowConfig::default(), 0)
}

#[test]
fn default_config_has_the_documented_values() {
    let config = WindowConfig::default();
    assert_eq!(config.width, 800);
    assert_eq!(config.height, 600);
    assert_eq!(config.title, "FerrousGL Application");
    assert!(config.decorated);
    assert!(config.resizeable);
    assert_eq!(config.target_framerate, 60);
    assert!(!config.transparent_framebuffer);
    assert_eq!(config.anti_aliasing, 4);
}

#[test]
fn hints_follow_the_config() {
    let mut config = WindowConfig::default();
    config.decorated = false;
    config.transparent_framebuffer = true;
    config.anti_aliasing = 8;
    assert_eq!(
        config.hints(),
        WindowHints {
            context_version_major: 3,
            context_version_minor: 3,
            core_profile: true,
            transparent_framebuffer: true,
            decorated: false,
            resizable: true,
            double_buffer: true,
            samples: Some(8),
        }
    );
}

#[test]
fn initial_viewport_covers_the_window() {
    let config = WindowConfig::default();
    assert_eq!(config.viewport(), FrameEffect::Viewport { width: 800, height: 600 });
}

#[test]
fn sizes_are_taken_by_their_bit_pattern() {
    assert_eq!(to_signed(0), 0);
    assert_eq!(to_signed(800), 800);
    assert_eq!(to_signed(0x7fff_ffff), i32::MAX);
    assert_eq!(to_signed(0x8000_0000), i32::MIN);
    assert_eq!(to_signed(u32::MAX), -1);
    for value in [1u32, 77, 0x8000_0001, 0xdead_beef, u32::MAX - 1] {
        assert_eq!(to_signed(value), value as i32);
    }
}

#[test]
fn multisample_warning_is_due_only_without_samples() {
    let warning = multisample_warning(0);
    assert!(warning.is_some());
    assert!(warning.unwrap().starts_with("[FerrousGl Error] MSAA Configuration has failed."));
    assert_eq!(multisample_warning(4), None);
    assert_eq!(multisample_warning(1), None);
    assert_eq!(multisample_warning(-1), None);
}

#[test]
fn new_window_has_no_input() {
    let window = window();
    assert!(!window.should_window_close());
    assert!(!window.is_key_pressed(WindowKey::A));
    assert!(!window.is_key_typed('a'));
    assert_eq!(window.get_typed_keys(), Vec::<char>::new());
    assert_eq!(offsets(window.get_mouse_wheel_delta()), (0.0, 0.0));
    assert_eq!(window.rendering_type(), RenderingType::Solid);
    assert_eq!(window.clock().target_frame_nanos(), 16_666_666);
    assert_eq!(window.clock().last_frame_nanos(), 0);
}

#[test]
fn press_is_reported_for_exactly_one_update_while_held() {
    let mut window = window();
    window.update(&[]);
    assert!(!window.is_key_pressed(WindowKey::W));
    window.update(&[press(WindowKey::W)]);
    assert!(window.is_key_pressed(WindowKey::W));
    for _ in 0..10 {
        window.update(&[repeat(WindowKey::W)]);
        assert!(!window.is_key_pressed(WindowKey::W));
    }
    window.update(&[]);
    assert!(!window.is_key_pressed(WindowKey::W));
    window.update(&[release(WindowKey::W)]);
    assert!(!window.is_key_pressed(WindowKey::W));
    window.update(&[press(WindowKey::W)]);
    assert!(window.is_key_pressed(WindowKey::W));
    window.update(&[]);
    assert!(!window.is_key_pressed(WindowKey::W));
}

#[test]
fn press_in_two_frames_running_is_fresh_only_in_the_first() {
    let mut window = window();
    window.update(&[press(WindowKey::Q), release(WindowKey::Q)]);
    assert!(window.is_key_pressed(WindowKey::Q));
    window.update(&[press(WindowKey::Q)]);
    assert!(!window.is_key_pressed(WindowKey::Q));
    window.update(&[]);
    window.update(&[press(WindowKey::Q)]);
    assert!(window.is_key_pressed(WindowKey::Q));
}

#[test]
fn keys_are_tracked_apart() {
    let mut window = window();
    window.update(&[press(WindowKey::A), press(WindowKey::B)]);
    assert!(window.is_key_pressed(WindowKey::A));
    assert!(window.is_key_pressed(WindowKey::B));
    assert!(!window.is_key_pressed(WindowKey::C));
    window.update(&[press(WindowKey::C), repeat(WindowKey::A)]);
    assert!(!window.is_key_pressed(WindowKey::A));
    assert!(!window.is_key_pressed(WindowKey::B));
    assert!(window.is_key_pressed(WindowKey::C));
}

#[test]
fn release_and_repeat_are_no_press() {
    let mut window = window();
    window.update(&[release(WindowKey::A), repeat(WindowKey::B)]);
    assert!(!window.is_key_pressed(WindowKey::A));
    assert!(!window.is_key_pressed(WindowKey::B));
}

#[test]
fn held_and_released_follow_the_device_alone() {
    let mut window = window();
    window.update(&[press(WindowKey::A)]);
    for _ in 0..3 {
        window.update(&[]);
        assert!(window.is_key_held(KeyAction::Press));
        assert!(!window.is_key_released(KeyAction::Press));
        assert!(!window.is_key_pressed(WindowKey::A));
    }
    assert!(!window.is_key_held(KeyAction::Release));
    assert!(window.is_key_released(KeyAction::Release));
    assert!(!window.is_key_held(KeyAction::Repeat));
    assert!(!window.is_key_released(KeyAction::Repeat));
    assert!(window.is_mouse_button_pressed(KeyAction::Press));
    assert!(!window.is_mouse_button_pressed(KeyAction::Release));
    assert!(!window.is_mouse_button_pressed(KeyAction::Repeat));
}

#[test]
fn scroll_delta_is_that_of_the_last_scroll_event() {
    let mut window = window();
    window.update(&[scroll(1.0, -2.5), press(WindowKey::A), scroll(0.25, 3.0), typed('x')]);
    assert_eq!(offsets(window.get_mouse_wheel_delta()), (0.25, 3.0));
    window.update(&[scroll(-7.0, 0.0)]);
    assert_eq!(offsets(window.get_mouse_wheel_delta()), (-7.0, 0.0));
}

#[test]
fn scroll_delta_is_zero_without_scroll_event() {
    let mut window = window();
    window.update(&[scroll(1.0, 1.0)]);
    window.update(&[press(WindowKey::A), typed('x')]);
    assert_eq!(offsets(window.get_mouse_wheel_delta()), (0.0, 0.0));
    window.update(&[]);
    assert_eq!(offsets(window.get_mouse_wheel_delta()), (0.0, 0.0));
}

#[test]
fn typed_keys_are_exactly_those_of_the_update() {
    let mut window = window();
    window.update(&[typed('h'), typed('i'), typed('h'), press(WindowKey::H), typed('\u{e9}')]);
    assert!(window.is_key_typed('h'));
    assert!(window.is_key_typed('i'));
    assert!(window.is_key_typed('\u{e9}'));
    assert!(!window.is_key_typed('H'));
    let mut keys = window.get_typed_keys();
    keys.sort();
    assert_eq!(keys, vec!['h', 'i', '\u{e9}']);
    window.update(&[typed('z')]);
    assert!(window.is_key_typed('z'));
    assert!(!window.is_key_typed('h'));
    assert_eq!(window.get_typed_keys(), vec!['z']);
}

#[test]
fn typed_keys_are_empty_after_update_without_character() {
    let mut window = window();
    window.update(&[typed('a')]);
    window.update(&[press(WindowKey::A), scroll(1.0, 1.0)]);
    assert_eq!(window.get_typed_keys(), Vec::<char>::new());
    assert!(!window.is_key_typed('a'));
}

#[test]
fn escape_press_closes_for_good() {
    let mut window = window();
    window.update(&[press(WindowKey::A)]);
    assert!(!window.should_window_close());
    let effects = window.update(&[press(WindowKey::Escape)]);
    assert_eq!(effects, vec![FrameEffect::Close]);
    assert!(window.should_window_close());
    for _ in 0..5 {
        let effects = window.update(&[release(WindowKey::Escape), press(WindowKey::B)]);
        assert_eq!(effects, Vec::<FrameEffect>::new());
        assert!(window.should_window_close());
    }
    window.update(&[]);
    assert!(window.should_window_close());
}

#[test]
fn escape_release_and_repeat_do_not_close() {
    let mut window = window();
    let effects = window.update(&[release(WindowKey::Escape), repeat(WindowKey::Escape)]);
    assert_eq!(effects, Vec::<FrameEffect>::new());
    assert!(!window.should_window_close());
}

#[test]
fn effects_come_in_the_order_of_the_events() {
    let mut window = window();
    let effects = window.update(&[
        WindowEvent::FramebufferSize { width: 640, height: 480 },
        press(WindowKey::A),
        press(WindowKey::Escape),
        WindowEvent::Other,
        WindowEvent::FramebufferSize { width: 1, height: 2 },
        press(WindowKey::Escape),
    ]);
    assert_eq!(
        effects,
        vec![
            FrameEffect::Viewport { width: 640, height: 480 },
            FrameEffect::Close,
            FrameEffect::Viewport { width: 1, height: 2 },
            FrameEffect::Close,
        ]
    );
}

#[test]
fn update_leaves_clock_and_rendering_type_alone() {
    let mut window = GlWindow::new(WindowConfig::default(), 123);
    window.set_rendering_type(RenderingType::Wireframe);
    window.update(&[press(WindowKey::A), scroll(1.0, 2.0)]);
    assert_eq!(window.rendering_type(), RenderingType::Wireframe);
    assert_eq!(window.clock().last_frame_nanos(), 123);
    assert_eq!(window.clock().target_frame_nanos(), 16_666_666);
}

#[test]
fn setters_change_only_what_they_name() {
    let mut window = window();
    window.update(&[press(WindowKey::A), typed('a'), scroll(1.0, 2.0)]);
    window.set_rendering_type(RenderingType::Points);
    window.set_target_fps(100);
    window.finish_frame(55);
    assert_eq!(window.rendering_type(), RenderingType::Points);
    assert_eq!(window.clock().target_frame_nanos(), 10_000_000);
    assert_eq!(window.clock().last_frame_nanos(), 55);
    assert!(window.is_key_pressed(WindowKey::A));
    assert!(window.is_key_typed('a'));
    assert_eq!(offsets(window.get_mouse_wheel_delta()), (1.0, 2.0));
}

#[test]
fn window_paces_through_its_clock() {
    let mut window = GlWindow::new(WindowConfig::default(), 1_000);
    assert_eq!(window.pacing_delay(1_000), 16_666_666);
    assert_eq!(window.pacing_delay(6_667_666), 10_000_000);
    assert_eq!(window.pacing_delay(16_667_666), 0);
    assert_eq!(window.pacing_delay(1_000_000_000), 0);
    assert_eq!(window.get_frame_time(2_501_999), 2_500);
    window.finish_frame(20_000_000);
    assert_eq!(window.pacing_delay(20_000_001), 16_666_665);
    assert_eq!(window.get_frame_time(20_000_000), 0);
}

#[test]
fn typed_buffer_holds_each_character_once() {
    let mut buffer = TypedCharacterBuffer::new();
    assert!(!buffer.contains('a'));
    buffer.insert('b');
    buffer.insert('a');
    buffer.insert('b');
    assert!(buffer.contains('a'));
    assert!(buffer.contains('b'));
    assert!(!buffer.contains('c'));
    assert_eq!(buffer.to_vec(), vec!['b', 'a']);
    buffer.clear();
    assert!(!buffer.contains('a'));
    assert_eq!(buffer.to_vec(), Vec::<char>::new());
}

#[test]
fn key_snapshot_is_taken_not_merged() {
    let mut keys = KeySnapshot::new();
    keys.press(WindowKey::A);
    assert!(keys.is_pressed(WindowKey::A));
    keys.begin_frame();
    assert!(!keys.is_pressed(WindowKey::A));
    keys.press(WindowKey::A);
    keys.press(WindowKey::B);
    assert!(!keys.is_pressed(WindowKey::A));
    assert!(keys.is_pressed(WindowKey::B));
    keys.begin_frame();
    keys.begin_frame();
    keys.press(WindowKey::A);
    assert!(keys.is_pressed(WindowKey::A));
}

#[test]
fn scroll_delta_starts_at_zero() {
    let delta = ScrollDelta::new();
    assert_eq!(offsets(delta), (0.0, 0.0));
    assert_eq!(delta, ScrollDelta { x_bits: 0, y_bits: 0 });
}

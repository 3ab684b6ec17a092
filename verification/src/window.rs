use crate::frame_clock::frame_nanos;
use crate::frame_clock::FrameClock;
use crate::gl_types::reinterpret_signed;
use crate::gl_types::to_signed;
use crate::input::close_requested_in;
use crate::input::effects_of;
use crate::input::last_scroll;
use crate::input::lemma_close_requested_in_push;
use crate::input::lemma_effects_of_push;
use crate::input::lemma_last_scroll_push;
use crate::input::lemma_pressed_in_push;
use crate::input::lemma_typed_in_push;
use crate::input::pressed_in;
use crate::input::typed_in;
use crate::input::FrameEffect;
use crate::input::KeySnapshot;
use crate::input::ScrollDelta;
use crate::input::TypedCharacterBuffer;
use crate::input::WindowEvent;
use crate::keys::KeyAction;
use crate::keys::WindowKey;
use crate::render_state::RenderingType;
use vstd::prelude::*;

verus! {

/// The settings that a window is created from.
#[derive(Debug, Clone, PartialEq, Eq)]
pub struct WindowConfig {
    pub width: u32,
    pub height: u32,
    pub title: String,
    pub decorated: bool,
    pub resizeable: bool,
    pub target_framerate: u32,
    pub transparent_framebuffer: bool,
    pub anti_aliasing: u32,
}

impl Default for WindowConfig {
    /// A decorated, resizable window of 800 by 600 pixels at 60 frames per
    /// second, with four samples per pixel.
    fn default() -> (config: WindowConfig)
        ensures
            config.width == 800,
            config.height == 600,
            config.title@ == "FerrousGL Application"@,
            config.decorated,
            config.resizeable,
            config.target_framerate == 60,
            !config.transparent_framebuffer,
            config.anti_aliasing == 4,
    {
        WindowConfig {
            width: 800,
            height: 600,
            title: "FerrousGL Application".to_owned(),
            decorated: true,
            resizeable: true,
            target_framerate: 60,
            transparent_framebuffer: false,
            anti_aliasing: 4,
        }
    }
}

/// The hints under which the native window and its context are created.
#[derive(Debug, Clone, Copy, PartialEq, Eq, Structural)]
pub struct WindowHints {
    pub context_version_major: u32,
    pub context_version_minor: u32,
    pub core_profile: bool,
    pub transparent_framebuffer: bool,
    pub decorated: bool,
    pub resizable: bool,
    pub double_buffer: bool,
    pub samples: Option<u32>,
}

impl WindowConfig {
    /// The hints that stand for these settings: a double-buffered context
    /// of version 3.3, core profile, and what the settings say of
    /// decoration, resizing, transparency and multisampling.
    pub fn hints(&self) -> (hints: WindowHints)
        ensures
            hints == (WindowHints {
                context_version_major: 3,
                context_version_minor: 3,
                core_profile: true,
                transparent_framebuffer: self.transparent_framebuffer,
                decorated: self.decorated,
                resizable: self.resizeable,
                double_buffer: true,
                samples: Some(self.anti_aliasing),
            }),
    {
        WindowHints {
            context_version_major: 3,
            context_version_minor: 3,
            core_profile: true,
            transparent_framebuffer: self.transparent_framebuffer,
            decorated: self.decorated,
            resizable: self.resizeable,
            double_buffer: true,
            samples: Some(self.anti_aliasing),
        }
    }

    /// The viewport of a window that was just created: the whole window.
    pub fn viewport(&self) -> (effect: FrameEffect)
        ensures
            effect == (FrameEffect::Viewport {
                width: reinterpret_signed(self.width) as i32,
                height: reinterpret_signed(self.height) as i32,
            }),
    {
        FrameEffect::Viewport { width: to_signed(self.width), height: to_signed(self.height) }
    }
}

/// The frame-scoped input state of a window, as queries see it.
pub struct InputState {
    /// The keys that went down during the current frame.
    pub pressed: Set<WindowKey>,
    /// The keys that went down during the frame before.
    pub previous: Set<WindowKey>,
    /// The characters typed during the current frame.
    pub typed: Set<char>,
    /// The offsets of the last scroll event of the current frame.
    pub scroll: ScrollDelta,
    /// Whether the window was asked to close.
    pub closing: bool,
}

impl InputState {
    /// The state of a window that has seen no event.
    pub open spec fn initial() -> InputState {
        InputState {
            pressed: Set::empty(),
            previous: Set::empty(),
            typed: Set::empty(),
            scroll: ScrollDelta::zero(),
            closing: false,
        }
    }

    /// Whether `key` is freshly pressed: down in this frame and not in the
    /// one before.
    pub open spec fn is_key_pressed(self, key: WindowKey) -> bool {
        self.pressed.contains(key) && !self.previous.contains(key)
    }

    /// The state after one update that drains `events`.
    ///
    /// The typed characters and the scroll offsets start afresh, the pressed
    /// keys become the previous ones, and a close request, once made,
    /// stays.
    pub open spec fn advance(self, events: Seq<WindowEvent>) -> InputState {
        InputState {
            pressed: pressed_in(events),
            previous: self.pressed,
            typed: typed_in(events),
            scroll: last_scroll(events),
            closing: self.closing || close_requested_in(events),
        }
    }

    /// The state after one update for each of `frames`, in their order.
    pub open spec fn after_frames(self, frames: Seq<Seq<WindowEvent>>) -> InputState
        decreases frames.len(),
    {
        if frames.len() == 0 {
            self
        } else {
            self.after_frames(frames.drop_last()).advance(frames.last())
        }
    }

    /// After any number of updates, the pressed keys are those of the last
    /// frame and the previous keys those of the frame before it.
    pub proof fn lemma_keys_after_frames(self, frames: Seq<Seq<WindowEvent>>)
        requires
            frames.len() > 0,
        ensures
            self.after_frames(frames).pressed == pressed_in(frames.last()),
            self.after_frames(frames).previous == if frames.len() == 1 {
                self.pressed
            } else {
                pressed_in(frames[frames.len() - 2])
            },
    {
        let earlier = frames.drop_last();
        if earlier.len() > 0 {
            assert(self.after_frames(earlier) == self.after_frames(earlier.drop_last()).advance(
                earlier.last(),
            ));
        } else {
            assert(self.after_frames(earlier) == self);
        }
    }

    /// A press is reported as fresh by exactly one update.
    ///
    /// Let a press of `key` arrive in frame `edge`, with no press of it in
    /// the frame before, and let the key then stay down, so that no further
    /// press of it arrives. Of the updates from that frame on, the one for
    /// frame `edge` reports the key as freshly pressed, and no later one
    /// does, however many frames the key is held.
    pub proof fn lemma_press_reported_once(
        self,
        frames: Seq<Seq<WindowEvent>>,
        edge: int,
        key: WindowKey,
    )
        requires
            0 <= edge < frames.len(),
            pressed_in(frames[edge]).contains(key),
            edge == 0 ==> !self.pressed.contains(key),
            edge > 0 ==> !pressed_in(frames[edge - 1]).contains(key),
            forall|later: int|
                edge < later < frames.len() ==> !pressed_in(#[trigger] frames[later]).contains(
                    key,
                ),
        ensures
            forall|n: int|
                edge < n <= frames.len() ==> (#[trigger] self.after_frames(
                    frames.take(n),
                ).is_key_pressed(key) <==> n == edge + 1),
    {
        assert forall|n: int| edge < n <= frames.len() implies (#[trigger] self.after_frames(
            frames.take(n),
        ).is_key_pressed(key) <==> n == edge + 1) by {
            self.lemma_keys_after_frames(frames.take(n));
        }
    }

    /// A window that was asked to close stays so through every further
    /// update.
    pub proof fn lemma_closing_is_terminal(self, frames: Seq<Seq<WindowEvent>>)
        requires
            self.closing,
        ensures
            self.after_frames(frames).closing,
        decreases frames.len(),
    {
        if frames.len() > 0 {
            self.lemma_closing_is_terminal(frames.drop_last());
        }
    }
}

/// All that queries and contracts see of a window.
pub struct WindowState {
    pub input: InputState,
    pub clock: FrameClock,
    pub rendering_type: RenderingType,
}

/// The state that a window keeps between frames: its input snapshot, its
/// frame clock and its rendering type.
///
/// The native window belongs to the caller. Each frame the caller hands the
/// drained events to `update`, carries out the effects that come back,
/// presents the frame, blocks for `pacing_delay` and calls `finish_frame`.
#[derive(Debug)]
pub struct GlWindow {
    clock: FrameClock,
    rendering_type: RenderingType,
    mouse_wheel_delta: ScrollDelta,
    typed_keys: TypedCharacterBuffer,
    keys: KeySnapshot,
    closing: bool,
}

impl View for GlWindow {
    type V = WindowState;

    closed spec fn view(&self) -> WindowState {
        WindowState {
            input: InputState {
                pressed: self.keys.current(),
                previous: self.keys.previous(),
                typed: self.typed_keys@,
                scroll: self.mouse_wheel_delta,
                closing: self.closing,
            },
            clock: self.clock,
            rendering_type: self.rendering_type,
        }
    }
}

/// The diagnostic for a context that came up without multisampling.
pub open spec fn multisample_warning_text() -> Seq<char> {
    "[FerrousGl Error] MSAA Configuration has failed. This is likely a problem with your nvidia driver.\nYou can change the problematic setting by going into NVIDIA Control Panel > Manage 3D Settings and clicking restore."@
}

/// The warning to report where the context that was created has
/// `actual_samples` samples per pixel: one is due exactly when it has none.
pub fn multisample_warning(actual_samples: i32) -> (warning: Option<String>)
    ensures
        warning is Some <==> actual_samples == 0,
        warning is Some ==> warning->0@ == multisample_warning_text(),
{
    if actual_samples == 0 {
        Some(
            "[FerrousGl Error] MSAA Configuration has failed. This is likely a problem with your nvidia driver.\nYou can change the problematic setting by going into NVIDIA Control Panel > Manage 3D Settings and clicking restore.".to_owned(),
        )
    } else {
        None
    }
}

impl GlWindow {
    /// The state of a window created from `config` at the time `now`: no
    /// input yet, solid rendering, and a clock for the configured
    /// framerate.
    pub fn new(config: WindowConfig, now: u64) -> (window: GlWindow)
        requires
            config.target_framerate > 0,
        ensures
            window@.input == InputState::initial(),
            window@.clock.target() == frame_nanos(config.target_framerate),
            window@.clock.last_frame() == now,
            window@.rendering_type == RenderingType::Solid,
    {
        GlWindow {
            clock: FrameClock::new(config.target_framerate, now),
            rendering_type: RenderingType::Solid,
            mouse_wheel_delta: ScrollDelta::new(),
            typed_keys: TypedCharacterBuffer::new(),
            keys: KeySnapshot::new(),
            closing: false,
        }
    }

    /// Whether the window was asked to close.
    pub fn should_window_close(&self) -> (closing: bool)
        ensures
            closing == self@.input.closing,
    {
        self.closing
    }

    /// Sets the target framerate, in frames per second.
    pub fn set_target_fps(&mut self, new_target_fps: u32)
        requires
            new_target_fps > 0,
        ensures
            final(self)@.clock.target() == frame_nanos(new_target_fps),
            final(self)@.clock.last_frame() == old(self)@.clock.last_frame(),
            final(self)@.input == old(self)@.input,
            final(self)@.rendering_type == old(self)@.rendering_type,
    {
        self.clock.set_target_fps(new_target_fps);
    }

    /// Sets how meshes are rasterised from now on.
    pub fn set_rendering_type(&mut self, rendering_type: RenderingType)
        ensures
            final(self)@ == (WindowState { rendering_type, ..old(self)@ }),
    {
        self.rendering_type = rendering_type;
    }

    /// How meshes are rasterised.
    pub fn rendering_type(&self) -> (rendering_type: RenderingType)
        ensures
            rendering_type == self@.rendering_type,
    {
        self.rendering_type
    }

    /// The frame clock.
    pub fn clock(&self) -> (clock: FrameClock)
        ensures
            clock == self@.clock,
    {
        self.clock
    }

    /// The offsets of the last scroll event of the current frame, zero
    /// where it had none.
    pub fn get_mouse_wheel_delta(&self) -> (delta: ScrollDelta)
        ensures
            delta == self@.input.scroll,
    {
        self.mouse_wheel_delta
    }

    /// Whether `key` went down in the current frame and not in the one
    /// before: true once for each press, however long the key is held.
    pub fn is_key_pressed(&self, key: WindowKey) -> (pressed: bool)
        ensures
            pressed == self@.input.is_key_pressed(key),
    {
        self.keys.is_pressed(key)
    }

    /// Whether a key is held, given what the device reports of it right
    /// now. The answer rests on the device alone, not on the snapshot.
    pub fn is_key_held(&self, live: KeyAction) -> (held: bool)
        ensures
            held == (live == KeyAction::Press),
    {
        live == KeyAction::Press
    }

    /// Whether a key is up, given what the device reports of it right now.
    pub fn is_key_released(&self, live: KeyAction) -> (released: bool)
        ensures
            released == (live == KeyAction::Release),
    {
        live == KeyAction::Release
    }

    /// Whether a mouse button is down, given what the device reports of it
    /// right now.
    pub fn is_mouse_button_pressed(&self, live: KeyAction) -> (pressed: bool)
        ensures
            pressed == (live == KeyAction::Press),
    {
        live == KeyAction::Press
    }

    /// Whether `key` was typed during the current frame.
    pub fn is_key_typed(&self, key: char) -> (typed: bool)
        ensures
            typed == self@.input.typed.contains(key),
    {
        self.typed_keys.contains(key)
    }

    /// The characters typed during the current frame, each once.
    pub fn get_typed_keys(&self) -> (keys: Vec<char>)
        ensures
            keys@.no_duplicates(),
            keys@.to_set() == self@.input.typed,
    {
        self.typed_keys.to_vec()
    }

    /// The whole microseconds that have passed at `now` since the last
    /// frame was completed.
    pub fn get_frame_time(&self, now: u64) -> (micros: u64)
        ensures
            micros == self@.clock.elapsed_at(now) / 1000,
    {
        self.clock.frame_time_micros(now)
    }

    /// Begins a frame and drains `events` in their order of arrival.
    ///
    /// Afterwards the input state is that of `InputState::advance`, and the
    /// result holds what is to be done to the native window, in order: a
    /// viewport for each new framebuffer size, a close for each press of
    /// escape.
    pub fn update(&mut self, events: &[WindowEvent]) -> (effects: Vec<FrameEffect>)
        ensures
            final(self)@.input == old(self)@.input.advance(events@),
            final(self)@.clock == old(self)@.clock,
            final(self)@.rendering_type == old(self)@.rendering_type,
            effects@ == effects_of(events@),
    {
        self.typed_keys.clear();
        self.mouse_wheel_delta = ScrollDelta::new();
        self.keys.begin_frame();

        let mut effects: Vec<FrameEffect> = Vec::new();
        let mut i: usize = 0;
        while i < events.len()
            invariant
                i <= events.len(),
                self@.input.pressed == pressed_in(events@.take(i as int)),
                self@.input.previous == old(self)@.input.pressed,
                self@.input.typed == typed_in(events@.take(i as int)),
                self@.input.scroll == last_scroll(events@.take(i as int)),
                self@.input.closing == (old(self)@.input.closing || close_requested_in(
                    events@.take(i as int),
                )),
                self@.clock == old(self)@.clock,
                self@.rendering_type == old(self)@.rendering_type,
                effects@ == effects_of(events@.take(i as int)),
            decreases events.len() - i,
        {
            let event: WindowEvent = events[i];
            proof {
                let seen = events@.take(i as int);
                assert(events@.take(i + 1) =~= seen.push(event));
                lemma_pressed_in_push(seen, event);
                lemma_typed_in_push(seen, event);
                lemma_last_scroll_push(seen, event);
                lemma_close_requested_in_push(seen, event);
                lemma_effects_of_push(seen, event);
            }
            match event {
                WindowEvent::Key { key, action } => {
                    if action == KeyAction::Press {
                        self.keys.press(key);
                        if key == WindowKey::Escape {
                            self.closing = true;
                            effects.push(FrameEffect::Close);
                        }
                    }
                },
                WindowEvent::FramebufferSize { width, height } => {
                    effects.push(FrameEffect::Viewport { width, height });
                },
                WindowEvent::Scroll { x_bits, y_bits } => {
                    self.mouse_wheel_delta = ScrollDelta { x_bits, y_bits };
                },
                WindowEvent::Char { codepoint } => {
                    self.typed_keys.insert(codepoint);
                },
                WindowEvent::Other => {},
            }
            i += 1;
        }
        assert(events@.take(events.len() as int) =~= events@);
        effects
    }

    /// The nanoseconds for which to block at `now`, once the frame is
    /// presented, so that it takes its target duration; zero where that
    /// much time has passed already.
    pub fn pacing_delay(&self, now: u64) -> (nanos: u64)
        ensures
            nanos == self@.clock.delay_at(now),
    {
        self.clock.pacing_delay(now)
    }

    /// Records `now` as the time at which the frame was completed.
    pub fn finish_frame(&mut self, now: u64)
        ensures
            final(self)@.clock.last_frame() == now,
            final(self)@.clock.target() == old(self)@.clock.target(),
            final(self)@.input == old(self)@.input,
            final(self)@.rendering_type == old(self)@.rendering_type,
    {
        self.clock.record_frame(now);
    }
}

} // verus!

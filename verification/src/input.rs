use crate::key_set::KeySet;
use crate::keys::KeyAction;
use crate::keys::WindowKey;
use vstd::prelude::*;

verus! {

/// Scroll offsets along x and y.
///
/// The offsets are 64-bit floating-point numbers. The window stores and
/// returns them and never computes with them, so each is carried as its
/// IEEE 754 bit pattern (`f64::to_bits`, `f64::from_bits`).
#[derive(Debug, Clone, Copy, PartialEq, Eq, Structural)]
pub struct ScrollDelta {
    pub x_bits: u64,
    pub y_bits: u64,
}

impl ScrollDelta {
    /// No scrolling: `(0.0, 0.0)`.
    pub open spec fn zero() -> ScrollDelta {
        ScrollDelta { x_bits: 0, y_bits: 0 }
    }

    /// No scrolling: `(0.0, 0.0)`.
    pub fn new() -> (delta: ScrollDelta)
        ensures
            delta == Self::zero(),
    {
        ScrollDelta { x_bits: 0, y_bits: 0 }
    }
}

/// An event of the native event queue, reduced to what the window reads
/// of it.
#[derive(Debug, Clone, Copy, PartialEq, Eq, Structural)]
pub enum WindowEvent {
    /// A key changed state or repeats.
    Key { key: WindowKey, action: KeyAction },
    /// The framebuffer has a new size, in pixels.
    FramebufferSize { width: i32, height: i32 },
    /// The wheel moved by these offsets.
    Scroll { x_bits: u64, y_bits: u64 },
    /// A character was typed.
    Char { codepoint: char },
    /// Any other event; the window ignores it.
    Other,
}

/// What the owner of the native window has to carry out after an event.
#[derive(Debug, Clone, Copy, PartialEq, Eq, Structural)]
pub enum FrameEffect {
    /// Set the viewport to the rectangle from `(0, 0)` with this size.
    Viewport { width: i32, height: i32 },
    /// Mark the native window for closing.
    Close,
}

impl WindowEvent {
    /// Whether the event reports that `key` went down.
    pub open spec fn is_press_of(self, key: WindowKey) -> bool {
        self == (WindowEvent::Key { key, action: KeyAction::Press })
    }

    /// Whether the event reports that `codepoint` was typed.
    pub open spec fn is_char(self, codepoint: char) -> bool {
        self == (WindowEvent::Char { codepoint })
    }

    /// Whether the event asks the window to close: a press of escape.
    pub open spec fn is_close_request(self) -> bool {
        self.is_press_of(WindowKey::Escape)
    }

    /// The effect that the event has outside the window's own state.
    pub open spec fn effect(self) -> Option<FrameEffect> {
        match self {
            WindowEvent::FramebufferSize { width, height } => Some(
                FrameEffect::Viewport { width, height },
            ),
            _ => if self.is_close_request() {
                Some(FrameEffect::Close)
            } else {
                None
            },
        }
    }
}

/// The keys of which `events` holds a press.
pub open spec fn pressed_in(events: Seq<WindowEvent>) -> Set<WindowKey> {
    Set::new(
        |key: WindowKey|
            exists|i: int| 0 <= i < events.len() && (#[trigger] events[i]).is_press_of(key),
    )
}

/// The characters of which `events` holds a character event.
pub open spec fn typed_in(events: Seq<WindowEvent>) -> Set<char> {
    Set::new(
        |codepoint: char|
            exists|i: int| 0 <= i < events.len() && (#[trigger] events[i]).is_char(codepoint),
    )
}

/// Whether `events` holds a press of the close key.
pub open spec fn close_requested_in(events: Seq<WindowEvent>) -> bool {
    exists|i: int| 0 <= i < events.len() && (#[trigger] events[i]).is_close_request()
}

/// The offsets of the last scroll event in `events`, zero where there is
/// none.
pub open spec fn last_scroll(events: Seq<WindowEvent>) -> ScrollDelta
    decreases events.len(),
{
    if events.len() == 0 {
        ScrollDelta::zero()
    } else {
        match events.last() {
            WindowEvent::Scroll { x_bits, y_bits } => ScrollDelta { x_bits, y_bits },
            _ => last_scroll(events.drop_last()),
        }
    }
}

/// The effects of `events`, in the order of the events.
pub open spec fn effects_of(events: Seq<WindowEvent>) -> Seq<FrameEffect>
    decreases events.len(),
{
    if events.len() == 0 {
        Seq::empty()
    } else {
        match events.last().effect() {
            Some(effect) => effects_of(events.drop_last()).push(effect),
            None => effects_of(events.drop_last()),
        }
    }
}

/// A press adds its key to the pressed keys; no other event changes them.
pub proof fn lemma_pressed_in_push(events: Seq<WindowEvent>, event: WindowEvent)
    ensures
        pressed_in(events.push(event)) == match event {
            WindowEvent::Key { key, action: KeyAction::Press } => pressed_in(events).insert(key),
            _ => pressed_in(events),
        },
{
    let longer = events.push(event);
    let expected = match event {
        WindowEvent::Key { key, action: KeyAction::Press } => pressed_in(events).insert(key),
        _ => pressed_in(events),
    };
    assert forall|key: WindowKey| pressed_in(longer).contains(key) == expected.contains(key) by {
        if pressed_in(longer).contains(key) {
            let i = choose|i: int| 0 <= i < longer.len() && (#[trigger] longer[i]).is_press_of(key);
            if i < events.len() {
                assert(events[i].is_press_of(key));
            }
        }
        if expected.contains(key) {
            if pressed_in(events).contains(key) {
                let i = choose|i: int|
                    0 <= i < events.len() && (#[trigger] events[i]).is_press_of(key);
                assert(longer[i].is_press_of(key));
            } else {
                assert(longer[events.len() as int].is_press_of(key));
            }
        }
    }
    assert(pressed_in(longer) =~= expected);
}

/// A character event adds its character to the typed ones; no other event
/// changes them.
pub proof fn lemma_typed_in_push(events: Seq<WindowEvent>, event: WindowEvent)
    ensures
        typed_in(events.push(event)) == match event {
            WindowEvent::Char { codepoint } => typed_in(events).insert(codepoint),
            _ => typed_in(events),
        },
{
    let longer = events.push(event);
    let expected = match event {
        WindowEvent::Char { codepoint } => typed_in(events).insert(codepoint),
        _ => typed_in(events),
    };
    assert forall|c: char| typed_in(longer).contains(c) == expected.contains(c) by {
        if typed_in(longer).contains(c) {
            let i = choose|i: int| 0 <= i < longer.len() && (#[trigger] longer[i]).is_char(c);
            if i < events.len() {
                assert(events[i].is_char(c));
            }
        }
        if expected.contains(c) {
            if typed_in(events).contains(c) {
                let i = choose|i: int| 0 <= i < events.len() && (#[trigger] events[i]).is_char(c);
                assert(longer[i].is_char(c));
            } else {
                assert(longer[events.len() as int].is_char(c));
            }
        }
    }
    assert(typed_in(longer) =~= expected);
}

/// A close request stays requested whatever follows it.
pub proof fn lemma_close_requested_in_push(events: Seq<WindowEvent>, event: WindowEvent)
    ensures
        close_requested_in(events.push(event)) == (close_requested_in(events)
            || event.is_close_request()),
{
    let longer = events.push(event);
    if close_requested_in(longer) {
        let i = choose|i: int| 0 <= i < longer.len() && (#[trigger] longer[i]).is_close_request();
        if i < events.len() {
            assert(events[i].is_close_request());
        }
    }
    if close_requested_in(events) {
        let i = choose|i: int| 0 <= i < events.len() && (#[trigger] events[i]).is_close_request();
        assert(longer[i].is_close_request());
    }
    if event.is_close_request() {
        assert(longer[events.len() as int].is_close_request());
    }
}

/// The close key is requested exactly when it is among the pressed keys.
pub proof fn lemma_close_requested_is_escape_pressed(events: Seq<WindowEvent>)
    ensures
        close_requested_in(events) == pressed_in(events).contains(WindowKey::Escape),
{
}

/// A scroll event overwrites the offsets; no other event changes them.
pub proof fn lemma_last_scroll_push(events: Seq<WindowEvent>, event: WindowEvent)
    ensures
        last_scroll(events.push(event)) == match event {
            WindowEvent::Scroll { x_bits, y_bits } => ScrollDelta { x_bits, y_bits },
            _ => last_scroll(events),
        },
{
    assert(events.push(event).drop_last() =~= events);
}

/// Each event appends its effect, if it has one.
pub proof fn lemma_effects_of_push(events: Seq<WindowEvent>, event: WindowEvent)
    ensures
        effects_of(events.push(event)) == match event.effect() {
            Some(effect) => effects_of(events).push(effect),
            None => effects_of(events),
        },
{
    assert(events.push(event).drop_last() =~= events);
}

/// The scroll offsets are those of the last scroll event: of the one at `at`
/// where no scroll event follows it.
pub proof fn lemma_last_scroll_is_last_writer(events: Seq<WindowEvent>, at: int)
    requires
        0 <= at < events.len(),
        events[at] is Scroll,
        forall|j: int| at < j < events.len() ==> !(#[trigger] events[j] is Scroll),
    ensures
        last_scroll(events) == (ScrollDelta {
            x_bits: events[at]->x_bits,
            y_bits: events[at]->y_bits,
        }),
    decreases events.len(),
{
    if at < events.len() - 1 {
        assert(!(events[events.len() - 1] is Scroll));
        lemma_last_scroll_is_last_writer(events.drop_last(), at);
    }
}

/// Without a scroll event the offsets are zero.
pub proof fn lemma_last_scroll_without_scroll(events: Seq<WindowEvent>)
    requires
        forall|j: int| 0 <= j < events.len() ==> !(#[trigger] events[j] is Scroll),
    ensures
        last_scroll(events) == ScrollDelta::zero(),
    decreases events.len(),
{
    if events.len() > 0 {
        assert(!(events[events.len() - 1] is Scroll));
        lemma_last_scroll_without_scroll(events.drop_last());
    }
}

/// Without a character event nothing was typed.
pub proof fn lemma_typed_in_without_char(events: Seq<WindowEvent>)
    requires
        forall|j: int| 0 <= j < events.len() ==> !(#[trigger] events[j] is Char),
    ensures
        typed_in(events) == Set::<char>::empty(),
{
}

/// The characters typed since the last update, each held once.
///
/// The characters are kept in a vector that holds none twice, not in a hash
/// set: vstd specifies hash sets only for keys whose hashing it models, and
/// `char` is not among them.
#[derive(Debug)]
pub struct TypedCharacterBuffer {
    chars: Vec<char>,
}

impl View for TypedCharacterBuffer {
    type V = Set<char>;

    /// The characters in the buffer.
    closed spec fn view(&self) -> Set<char> {
        self.chars@.to_set()
    }
}

impl TypedCharacterBuffer {
    #[verifier::type_invariant]
    spec fn holds_each_once(&self) -> bool {
        self.chars@.no_duplicates()
    }

    /// The empty buffer.
    pub fn new() -> (buffer: TypedCharacterBuffer)
        ensures
            buffer@ == Set::<char>::empty(),
    {
        TypedCharacterBuffer { chars: Vec::new() }
    }

    /// Empties the buffer.
    pub fn clear(&mut self)
        ensures
            final(self)@ == Set::<char>::empty(),
    {
        self.chars = Vec::new();
    }

    /// Whether `codepoint` is in the buffer.
    pub fn contains(&self, codepoint: char) -> (found: bool)
        ensures
            found == self@.contains(codepoint),
    {
        let mut i: usize = 0;
        while i < self.chars.len()
            invariant
                i <= self.chars.len(),
                forall|j: int| 0 <= j < i ==> self.chars@[j] != codepoint,
            decreases self.chars.len() - i,
        {
            if self.chars[i] == codepoint {
                return true;
            }
            i += 1;
        }
        false
    }

    /// Puts `codepoint` into the buffer.
    pub fn insert(&mut self, codepoint: char)
        ensures
            final(self)@ == old(self)@.insert(codepoint),
    {
        proof {
            use_type_invariant(&*self);
        }
        if !self.contains(codepoint) {
            let mut chars: Vec<char> = Vec::new();
            std::mem::swap(&mut self.chars, &mut chars);
            proof {
                chars@.lemma_push_to_set_commute(codepoint);
            }
            chars.push(codepoint);
            self.chars = chars;
        }
    }

    /// The characters in the buffer, each once.
    pub fn to_vec(&self) -> (chars: Vec<char>)
        ensures
            chars@.no_duplicates(),
            chars@.to_set() == self@,
    {
        proof {
            use_type_invariant(self);
        }
        let mut chars: Vec<char> = Vec::new();
        let mut i: usize = 0;
        while i < self.chars.len()
            invariant
                i <= self.chars.len(),
                chars@ == self.chars@.take(i as int),
            decreases self.chars.len() - i,
        {
            chars.push(self.chars[i]);
            i += 1;
        }
        assert(chars@ =~= self.chars@);
        chars
    }
}

/// The keys that went down during the current frame and during the one
/// before it.
///
/// The previous set is a snapshot: it always equals the current set as it
/// was when the frame began, and is never merged with anything.
#[derive(Debug, Clone, Copy)]
pub struct KeySnapshot {
    current: KeySet,
    previous: KeySet,
}

impl KeySnapshot {
    /// The keys pressed during the current frame.
    pub closed spec fn current(&self) -> Set<WindowKey> {
        self.current@
    }

    /// The keys pressed during the previous frame.
    pub closed spec fn previous(&self) -> Set<WindowKey> {
        self.previous@
    }

    /// The snapshot of a window on which no key was pressed yet.
    pub fn new() -> (keys: KeySnapshot)
        ensures
            keys.current() == Set::<WindowKey>::empty(),
            keys.previous() == Set::<WindowKey>::empty(),
    {
        KeySnapshot { current: KeySet::new(), previous: KeySet::new() }
    }

    /// Begins a frame: the current keys become the previous ones, and no key
    /// is pressed in the new frame yet.
    pub fn begin_frame(&mut self)
        ensures
            final(self).previous() == old(self).current(),
            final(self).current() == Set::<WindowKey>::empty(),
    {
        self.previous = self.current;
        self.current.clear();
    }

    /// Records that `key` went down in the current frame.
    pub fn press(&mut self, key: WindowKey)
        ensures
            final(self).current() == old(self).current().insert(key),
            final(self).previous() == old(self).previous(),
    {
        self.current.insert(key);
    }

    /// Whether `key` went down in the current frame and not in the one
    /// before.
    pub fn is_pressed(&self, key: WindowKey) -> (pressed: bool)
        ensures
            pressed == (self.current().contains(key) && !self.previous().contains(key)),
    {
        self.current.contains(key) && !self.previous.contains(key)
    }
}

} // verus!

use vstd::prelude::*;

verus! {

/// How many scan codes wait at most; a key pressed beyond that is dropped.
pub const KEYBOARD_BUFFER_CAPACITY: usize = 32;

/// A key of a PC keyboard, as the host's input layer names it.
#[derive(Clone, Copy, Debug, PartialEq, Eq, Structural)]
pub enum Key {
    Escape,
    Key1,
    Key2,
    Key3,
    Key4,
    Key5,
    Key6,
    Key7,
    Key8,
    Asterisk,
    Key9,
    Key0,
    Minus,
    Equals,
    Back,
    Tab,
    Q,
    W,
    E,
    R,
    T,
    Y,
    U,
    I,
    O,
    P,
    LBracket,
    RBracket,
    Return,
    LControl,
    A,
    S,
    D,
    F,
    G,
    H,
    J,
    K,
    L,
    Semicolon,
    Apostrophe,
    Grave,
    LShift,
    Backslash,
    Z,
    X,
    C,
    V,
    B,
    N,
    M,
    Comma,
    Period,
    Slash,
    RShift,
    LAlt,
    Space,
    Capital,
    F1,
    F2,
    F3,
    F4,
    F5,
    F6,
    F7,
    F8,
    F9,
    F10,
    F11,
    F12,
    Up,
    Down,
    Left,
    Right,
    /// Any key that has no scan code here.
    Other,
}

/// The set-1 make code of each key; 0 for a key without one.
pub open spec fn scancode_of(key: Key) -> u8 {
    match key {
        Key::Escape => 0x01,
            Key::Key1 => 0x02,
            Key::Key2 => 0x03,
            Key::Key3 => 0x04,
            Key::Key4 => 0x05,
            Key::Key5 => 0x06,
            Key::Key6 => 0x07,
            Key::Key7 => 0x08,
            Key::Key8 => 0x09,
            Key::Asterisk => 0x09,
            Key::Key9 => 0x0A,
            Key::Key0 => 0x0B,
            Key::Minus => 0x0C,
            Key::Equals => 0x0D,
            Key::Back => 0x0E,
            Key::Tab => 0x0F,
            Key::Q => 0x10,
            Key::W => 0x11,
            Key::E => 0x12,
            Key::R => 0x13,
            Key::T => 0x14,
            Key::Y => 0x15,
            Key::U => 0x16,
            Key::I => 0x17,
            Key::O => 0x18,
            Key::P => 0x19,
            Key::LBracket => 0x1A,
            Key::RBracket => 0x1B,
            Key::Return => 0x1C,
            Key::LControl => 0x1D,
            Key::A => 0x1E,
            Key::S => 0x1F,
            Key::D => 0x20,
            Key::F => 0x21,
            Key::G => 0x22,
            Key::H => 0x23,
            Key::J => 0x24,
            Key::K => 0x25,
            Key::L => 0x26,
            Key::Semicolon => 0x27,
            Key::Apostrophe => 0x28,
            Key::Grave => 0x29,
            Key::LShift => 0x2A,
            Key::Backslash => 0x2B,
            Key::Z => 0x2C,
            Key::X => 0x2D,
            Key::C => 0x2E,
            Key::V => 0x2F,
            Key::B => 0x30,
            Key::N => 0x31,
            Key::M => 0x32,
            Key::Comma => 0x33,
            Key::Period => 0x34,
            Key::Slash => 0x35,
            Key::RShift => 0x36,
            Key::LAlt => 0x38,
            Key::Space => 0x39,
            Key::Capital => 0x3A,
            Key::F1 => 0x3B,
            Key::F2 => 0x3C,
            Key::F3 => 0x3D,
            Key::F4 => 0x3E,
            Key::F5 => 0x3F,
            Key::F6 => 0x40,
            Key::F7 => 0x41,
            Key::F8 => 0x42,
            Key::F9 => 0x43,
            Key::F10 => 0x44,
            Key::F11 => 0x57,
            Key::F12 => 0x58,
            Key::Up => 0x67,
            Key::Down => 0x6C,
            Key::Left => 0x69,
            Key::Right => 0x6A,
            Key::Other => 0x00,
    }
}

/// The code that a key event queues: the make code, with bit 7 set when
/// the key is released; 0 when there is no key or it has no code.
pub open spec fn event_code(key: Option<Key>, released: bool) -> u8 {
    match key {
        None => 0,
        Some(k) => if released && scancode_of(k) != 0 {
            scancode_of(k) | 0x80
        } else {
            scancode_of(k)
        },
    }
}

/// The two halves of one `ringbuf` ring of scan codes. They share a single
/// buffer behind an `Arc`, so they are held together and hidden from Verus;
/// what the ring holds is `ring_contents`.
#[verifier::external_body]
pub struct ScancodeRing {
    producer: ringbuf::Producer<u8>,
    consumer: ringbuf::Consumer<u8>,
}

/// The scan codes in the ring, oldest first.
pub uninterp spec fn ring_contents(r: ScancodeRing) -> Seq<u8>;

/// The capacity that the ring was made with.
pub uninterp spec fn ring_capacity(r: ScancodeRing) -> nat;

/// Relies on `ringbuf::RingBuffer::new` (a buffer of `capacity + 1` slots, of
/// which `capacity` hold items) and `RingBuffer::split`: an empty ring.
#[verifier::external_body]
fn ring_new(capacity: usize) -> (r: ScancodeRing)
    requires
        capacity < usize::MAX,
    ensures
        ring_contents(r) == Seq::<u8>::empty(),
        ring_capacity(r) == capacity,
{
    let (producer, consumer) = ringbuf::RingBuffer::<u8>::new(capacity).split();
    ScancodeRing { producer, consumer }
}

/// Relies on `ringbuf::Producer::push`: appends when the ring is not full,
/// else hands the item back and changes nothing.
#[verifier::external_body]
fn ring_push(r: &mut ScancodeRing, code: u8) -> (ok: bool)
    ensures
        ring_capacity(*final(r)) == ring_capacity(*old(r)),
        ring_contents(*old(r)).len() < ring_capacity(*old(r)) ==> ok && ring_contents(*final(r)) == ring_contents(*old(r)).push(code),
        ring_contents(*old(r)).len() >= ring_capacity(*old(r)) ==> !ok && ring_contents(*final(r)) == ring_contents(*old(r)),
{
    r.producer.push(code).is_ok()
}

/// Relies on `ringbuf::Consumer::pop`: takes the oldest item, or `None` when
/// the ring is empty.
#[verifier::external_body]
fn ring_pop(r: &mut ScancodeRing) -> (c: Option<u8>)
    ensures
        ring_capacity(*final(r)) == ring_capacity(*old(r)),
        ring_contents(*old(r)).len() == 0 ==> c is None && ring_contents(*final(r)) == ring_contents(*old(r)),
        ring_contents(*old(r)).len() > 0 ==> c == Some(ring_contents(*old(r))[0]) && ring_contents(*final(r))
            == ring_contents(*old(r)).drop_first(),
{
    r.consumer.pop()
}

/// The keyboard: a bounded first-in first-out queue of scan codes.
pub struct Keyboard {
    ring: ScancodeRing,
}

impl View for Keyboard {
    type V = Seq<u8>;

    closed spec fn view(&self) -> Seq<u8> {
        ring_contents(self.ring)
    }
}

impl Keyboard {
    pub closed spec fn wf(&self) -> bool {
        &&& ring_capacity(self.ring) == KEYBOARD_BUFFER_CAPACITY
        &&& ring_contents(self.ring).len() <= KEYBOARD_BUFFER_CAPACITY
    }

    pub fn new() -> (r: Keyboard)
        ensures
            r.wf(),
            r@ == Seq::<u8>::empty(),
    {
        Keyboard { ring: ring_new(KEYBOARD_BUFFER_CAPACITY) }
    }

    /// Queues a scan code; when the queue is full the code is dropped and
    /// `false` returned.
    pub fn push(&mut self, scancode: u8) -> (r: bool)
        requires
            old(self).wf(),
        ensures
            final(self).wf(),
            old(self)@.len() < KEYBOARD_BUFFER_CAPACITY ==> r && final(self)@ == old(self)@.push(scancode),
            old(self)@.len() >= KEYBOARD_BUFFER_CAPACITY ==> !r && final(self)@ == old(self)@,
    {
        ring_push(&mut self.ring, scancode)
    }

    /// The oldest scan code, or 0 when none waits.
    pub fn pop(&mut self) -> (r: u8)
        requires
            old(self).wf(),
        ensures
            final(self).wf(),
            old(self)@.len() == 0 ==> r == 0 && final(self)@ == old(self)@,
            old(self)@.len() > 0 ==> r == old(self)@[0] && final(self)@ == old(self)@.drop_first(),
    {
        match ring_pop(&mut self.ring) {
            Some(code) => code,
            None => 0,
        }
    }

    pub fn keycode_to_scancode(key: Key) -> (r: u8)
        ensures
            r == scancode_of(key),
    {
        match key {
            Key::Escape => 0x01,
            Key::Key1 => 0x02,
            Key::Key2 => 0x03,
            Key::Key3 => 0x04,
            Key::Key4 => 0x05,
            Key::Key5 => 0x06,
            Key::Key6 => 0x07,
            Key::Key7 => 0x08,
            Key::Key8 => 0x09,
            Key::Asterisk => 0x09,
            Key::Key9 => 0x0A,
            Key::Key0 => 0x0B,
            Key::Minus => 0x0C,
            Key::Equals => 0x0D,
            Key::Back => 0x0E,
            Key::Tab => 0x0F,
            Key::Q => 0x10,
            Key::W => 0x11,
            Key::E => 0x12,
            Key::R => 0x13,
            Key::T => 0x14,
            Key::Y => 0x15,
            Key::U => 0x16,
            Key::I => 0x17,
            Key::O => 0x18,
            Key::P => 0x19,
            Key::LBracket => 0x1A,
            Key::RBracket => 0x1B,
            Key::Return => 0x1C,
            Key::LControl => 0x1D,
            Key::A => 0x1E,
            Key::S => 0x1F,
            Key::D => 0x20,
            Key::F => 0x21,
            Key::G => 0x22,
            Key::H => 0x23,
            Key::J => 0x24,
            Key::K => 0x25,
            Key::L => 0x26,
            Key::Semicolon => 0x27,
            Key::Apostrophe => 0x28,
            Key::Grave => 0x29,
            Key::LShift => 0x2A,
            Key::Backslash => 0x2B,
            Key::Z => 0x2C,
            Key::X => 0x2D,
            Key::C => 0x2E,
            Key::V => 0x2F,
            Key::B => 0x30,
            Key::N => 0x31,
            Key::M => 0x32,
            Key::Comma => 0x33,
            Key::Period => 0x34,
            Key::Slash => 0x35,
            Key::RShift => 0x36,
            Key::LAlt => 0x38,
            Key::Space => 0x39,
            Key::Capital => 0x3A,
            Key::F1 => 0x3B,
            Key::F2 => 0x3C,
            Key::F3 => 0x3D,
            Key::F4 => 0x3E,
            Key::F5 => 0x3F,
            Key::F6 => 0x40,
            Key::F7 => 0x41,
            Key::F8 => 0x42,
            Key::F9 => 0x43,
            Key::F10 => 0x44,
            Key::F11 => 0x57,
            Key::F12 => 0x58,
            Key::Up => 0x67,
            Key::Down => 0x6C,
            Key::Left => 0x69,
            Key::Right => 0x6A,
            Key::Other => 0x00,
        }
    }

    /// Queues the code of a key event (see `event_code`); `false` when the
    /// queue was full and the code dropped.
    pub fn push_key(&mut self, key: Option<Key>, released: bool) -> (r: bool)
        requires
            old(self).wf(),
        ensures
            final(self).wf(),
            old(self)@.len() < KEYBOARD_BUFFER_CAPACITY ==> r && final(self)@ == old(self)@.push(event_code(key, released)),
            old(self)@.len() >= KEYBOARD_BUFFER_CAPACITY ==> !r && final(self)@ == old(self)@,
    {
        let mut scancode = match key {
            Some(k) => Keyboard::keycode_to_scancode(k),
            None => 0x00,
        };
        if released && scancode != 0x00 {
            scancode = scancode | 0x80;
        }
        self.push(scancode)
    }
}

} // verus!

//! The text view: the characters typed and printed so far, and where their
//! glyphs go on the canvas.

use vstd::prelude::*;
use crate::process::ProcessManager;

verus! {

/// A key of the keyboard, as far as the text view tells keys apart.
#[derive(Clone, Copy, Debug, PartialEq, Eq, Structural)]
pub enum Key {
    A,
    B,
    C,
    D,
    E,
    F,
    G,
    H,
    I,
    J,
    K,
    L,
    M,
    N,
    O,
    P,
    Q,
    R,
    S,
    T,
    U,
    V,
    W,
    X,
    Y,
    Z,
    /// Any key that is not a letter.
    Other,
}

/// Horizontal distance between the origins of two glyphs, in pixels.
pub const GLYPH_ADVANCE: u64 = 12;

/// Vertical position of the baseline, in pixels.
pub const BASELINE: u64 = 32;

/// The character that a key types. `P` and `T` type `q`, and `W` and every
/// key that is not a letter type `*`.
pub open spec fn key_char(key: Key) -> char {
    match key {
        Key::A => 'a',
        Key::B => 'b',
        Key::C => 'c',
        Key::D => 'd',
        Key::E => 'e',
        Key::F => 'f',
        Key::G => 'g',
        Key::H => 'h',
        Key::I => 'i',
        Key::J => 'j',
        Key::K => 'k',
        Key::L => 'l',
        Key::M => 'm',
        Key::N => 'n',
        Key::O => 'o',
        Key::P => 'q',
        Key::R => 'r',
        Key::S => 's',
        Key::T => 'q',
        Key::Q => 'q',
        Key::U => 'u',
        Key::V => 'v',
        Key::X => 'x',
        Key::Y => 'y',
        Key::Z => 'z',
        _ => '*',
    }
}

/// The character that a key types.
pub fn key_code_to_char(key: Key) -> (c: char)
    ensures
        c == key_char(key),
{
    match key {
        Key::A => 'a',
        Key::B => 'b',
        Key::C => 'c',
        Key::D => 'd',
        Key::E => 'e',
        Key::F => 'f',
        Key::G => 'g',
        Key::H => 'h',
        Key::I => 'i',
        Key::J => 'j',
        Key::K => 'k',
        Key::L => 'l',
        Key::M => 'm',
        Key::N => 'n',
        Key::O => 'o',
        Key::P => 'q',
        Key::R => 'r',
        Key::S => 's',
        Key::T => 'q',
        Key::Q => 'q',
        Key::U => 'u',
        Key::V => 'v',
        Key::X => 'x',
        Key::Y => 'y',
        Key::Z => 'z',
        _ => '*',
    }
}

/// Every key types a lower-case letter or `*`.
pub proof fn lemma_key_char_range(key: Key)
    ensures
        key_char(key) == '*' || ('a' <= key_char(key) <= 'z'),
{
}

/// The text view.
#[derive(Debug)]
pub struct TextRender {
    /// The characters shown, in the order in which they came.
    pub buffer: Vec<char>,
    /// Width of the canvas in pixels.
    pub canvas_width: u32,
    /// Height of the canvas in pixels.
    pub canvas_height: u32,
    /// The queues to and from the companion process.
    pub process: ProcessManager,
}

impl TextRender {
    /// An empty text view with a canvas of `x` by `y` pixels.
    pub fn new(x: u32, y: u32) -> (r: TextRender)
        ensures
            r.buffer@ == Seq::<char>::empty(),
            r.canvas_width == x,
            r.canvas_height == y,
            r.process.outgoing@ == Seq::<char>::empty(),
            r.process.incoming@ == Seq::<char>::empty(),
    {
        TextRender {
            buffer: Vec::new(),
            canvas_width: x,
            canvas_height: y,
            process: ProcessManager::new(),
        }
    }

    /// Takes a key press: the character that the key types is queued for the
    /// process and shown. Without a key nothing changes.
    pub fn update(&mut self, key: Option<Key>)
        ensures
            final(self).canvas_width == old(self).canvas_width,
            final(self).canvas_height == old(self).canvas_height,
            final(self).process.incoming@ == old(self).process.incoming@,
            match key {
                Some(k) => final(self).buffer@ == old(self).buffer@.push(key_char(k))
                    && final(self).process.outgoing@ == old(self).process.outgoing@.push(
                    key_char(k),
                ),
                None => final(self).buffer@ == old(self).buffer@ && final(self).process.outgoing@
                    == old(self).process.outgoing@,
            },
    {
        if let Some(key) = key {
            let c = key_code_to_char(key);
            self.process.outgoing.push(c);
            self.buffer.push(c);
        }
    }

    /// Prepares a redraw onto an image of `x` by `y` pixels: what the process
    /// has printed is shown behind the rest, and the canvas takes the image's
    /// size. Returns whether the canvas has changed its size and must be made anew.
    pub fn refresh(&mut self, x: u32, y: u32) -> (resized: bool)
        ensures
            final(self).buffer@ == old(self).buffer@ + old(self).process.incoming@,
            final(self).process.incoming@ == Seq::<char>::empty(),
            final(self).process.outgoing@ == old(self).process.outgoing@,
            final(self).canvas_width == x,
            final(self).canvas_height == y,
            resized == (x != old(self).canvas_width || y != old(self).canvas_height),
    {
        let mut printed = self.process.read();
        self.buffer.append(&mut printed);
        let resized = x != self.canvas_width || y != self.canvas_height;
        self.canvas_width = x;
        self.canvas_height = y;
        resized
    }

    /// Number of glyphs to draw.
    pub fn glyph_count(&self) -> (n: usize)
        ensures
            n == self.buffer@.len(),
    {
        self.buffer.len()
    }

    /// The character of glyph number `index`.
    pub fn glyph(&self, index: usize) -> (r: Option<char>)
        ensures
            r == if index < self.buffer@.len() {
                Some(self.buffer@[index as int])
            } else {
                None
            },
    {
        if index < self.buffer.len() {
            Some(self.buffer[index])
        } else {
            None
        }
    }
}

/// Where glyph number `index` begins: twelve pixels to the right of the glyph
/// before it, on the baseline. `None` exactly when the position does not fit
/// in 64 bits.
pub fn glyph_origin(index: usize) -> (r: Option<(u64, u64)>)
    ensures
        r is Some <==> index * GLYPH_ADVANCE <= u64::MAX,
        r matches Some(p) ==> p.0 == index * GLYPH_ADVANCE && p.1 == BASELINE,
{
    match (index as u64).checked_mul(GLYPH_ADVANCE) {
        Some(x) => Some((x, BASELINE)),
        None => None,
    }
}

} // verus!

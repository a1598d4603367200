//! Which texts may be handed to the JSON parser.
//!
//! The parser calls itself once for every array or object that is open,
//! keeps the keys of the objects it is inside of in one buffer that it
//! addresses with 16 bits, counts the items of an array in 32 bits, and
//! loses its place after a comma that is followed by a closing brace. On a
//! text that strains one of these it does not return. It also raises ten to
//! the power of an exponent in floating point, which need not come out the
//! same every time. This module scans a text once, byte by byte, and tells
//! whether it stays clear of all five.
//!
//! The scan errs on the safe side. It measures a key by the bytes between
//! its quotes, which are never fewer than the bytes it decodes to, it takes
//! every `e` that follows a digit outside a string for an exponent, and it
//! goes on after the place where the parser would have stopped with a
//! syntax error.

use vstd::prelude::*;

verus! {

/// The most bytes that the keys on one path of nested objects may take
/// together.
pub const KEY_BYTES: usize = 65535;

/// The most arrays and objects that may be open at one place.
pub const DEPTH: usize = 128;

/// An array or object that the scan is inside of.
#[derive(Debug, Clone, Copy, PartialEq, Eq)]
pub struct Frame {
    /// Whether this is an object; otherwise it is an array.
    pub object: bool,
    /// The bytes that the keys of the enclosing objects take.
    pub base: usize,
    /// The number of commas seen in this array.
    pub index: u32,
}

/// Where the scan stands after a prefix of the text.
#[verifier::ext_equal]
pub struct Scan {
    /// Whether the prefix stays within the limits. Once lost, the scan
    /// stands still.
    pub ok: bool,
    /// The arrays and objects that are open, outermost first.
    pub frames: Seq<Frame>,
    /// The bytes that the keys of the open objects take.
    pub used: usize,
    /// Whether the scan is inside a string.
    pub in_string: bool,
    /// Whether the last byte of the string was an unescaped backslash.
    pub escaped: bool,
    /// Whether the string is the key of a member.
    pub is_key: bool,
    /// The bytes of the string so far, counted up to one over the limit.
    pub len: usize,
    /// Whether a string that starts now stands where a key is looked for.
    pub key_next: bool,
    /// Whether only white space has followed the last comma.
    pub after_comma: bool,
    /// Whether the last byte stood outside a string and was a digit.
    pub after_digit: bool,
}

/// The length of a string that has grown by one byte.
pub open spec fn grown(len: usize) -> usize {
    if len <= KEY_BYTES {
        (len + 1) as usize
    } else {
        len
    }
}

/// Whether a byte is white space to the parser.
pub open spec fn is_space(b: u8) -> bool {
    b == 0x20 || b == 0x0a || b == 0x09 || b == 0x0d
}

/// Whether a byte is a decimal digit.
pub open spec fn is_digit(b: u8) -> bool {
    0x30 <= b <= 0x39
}

impl Scan {
    /// The scan before the first byte.
    pub open spec fn start() -> Scan {
        Scan {
            ok: true,
            frames: Seq::empty(),
            used: 0,
            in_string: false,
            escaped: false,
            is_key: false,
            len: 0,
            key_next: false,
            after_comma: false,
            after_digit: false,
        }
    }

    /// The bytes that the keys of the objects around the innermost open
    /// array or object take.
    pub open spec fn base(self) -> usize {
        if self.frames.len() > 0 {
            self.frames.last().base
        } else {
            0
        }
    }

    /// The scan after the closing quote of a string. A key must fit into
    /// the buffer behind the keys around it.
    pub open spec fn string_closed(self) -> Scan {
        if !self.is_key {
            Scan { in_string: false, ..self }
        } else if self.len <= KEY_BYTES && self.base() <= KEY_BYTES - self.len {
            Scan { in_string: false, used: (self.base() + self.len) as usize, ..self }
        } else {
            Scan { ok: false, ..self }
        }
    }

    /// The scan after one more byte inside a string.
    pub open spec fn in_text(self, b: u8) -> Scan {
        if self.escaped {
            Scan { escaped: false, len: grown(self.len), ..self }
        } else if b == 0x5c {
            Scan { escaped: true, len: grown(self.len), ..self }
        } else if b == 0x22 {
            self.string_closed()
        } else {
            Scan { len: grown(self.len), ..self }
        }
    }

    /// The scan after one more byte outside a string, as far as numbers
    /// go: the letter `e` right after a digit opens an exponent, and no
    /// exponent is within the limits.
    pub open spec fn counted(self, b: u8) -> Scan {
        if self.after_digit && (b == 0x65 || b == 0x45) {
            Scan { ok: false, ..self }
        } else {
            Scan { after_digit: is_digit(b), ..self }
        }
    }

    /// The scan after a bracket or brace that closes the innermost open
    /// array or object.
    pub open spec fn closed(self) -> Scan {
        if self.frames.len() > 0 {
            Scan {
                frames: self.frames.drop_last(),
                used: self.frames.last().base,
                key_next: false,
                after_comma: false,
                ..self
            }
        } else {
            Scan { key_next: false, after_comma: false, ..self }
        }
    }

    /// The scan after a comma. In an object the key of the last member
    /// goes and the next key is looked for; in an array the count of items
    /// goes up.
    pub open spec fn separated(self) -> Scan {
        if self.frames.len() == 0 {
            Scan { key_next: false, after_comma: true, ..self }
        } else if self.frames.last().object {
            Scan { used: self.frames.last().base, key_next: true, after_comma: true, ..self }
        } else if self.frames.last().index < u32::MAX {
            Scan {
                frames: self.frames.update(
                    self.frames.len() - 1,
                    Frame {
                        index: (self.frames.last().index + 1) as u32,
                        ..self.frames.last()
                    },
                ),
                key_next: false,
                after_comma: true,
                ..self
            }
        } else {
            Scan { ok: false, ..self }
        }
    }

    /// The scan after an opening bracket or brace. No more than `DEPTH`
    /// arrays and objects may be open.
    pub open spec fn opened(self, object: bool) -> Scan {
        if self.frames.len() < DEPTH {
            Scan {
                frames: self.frames.push(Frame { object, base: self.used, index: 0 }),
                key_next: object,
                after_comma: false,
                ..self
            }
        } else {
            Scan { ok: false, ..self }
        }
    }

    /// The scan after one more byte outside a string, as far as the
    /// structure goes.
    pub open spec fn structured(self, b: u8) -> Scan {
        if is_space(b) {
            self
        } else if b == 0x22 {
            Scan {
                in_string: true,
                escaped: false,
                len: 0,
                is_key: self.key_next && self.frames.len() > 0 && self.frames.last().object,
                key_next: false,
                after_comma: false,
                ..self
            }
        } else if b == 0x7b {
            self.opened(true)
        } else if b == 0x5b {
            self.opened(false)
        } else if b == 0x7d {
            if self.after_comma {
                Scan { ok: false, ..self }
            } else {
                self.closed()
            }
        } else if b == 0x5d {
            self.closed()
        } else if b == 0x2c {
            self.separated()
        } else {
            Scan { key_next: false, after_comma: false, ..self }
        }
    }

    /// The scan after one more byte.
    pub open spec fn step(self, b: u8) -> Scan {
        if !self.ok {
            self
        } else if self.in_string {
            self.in_text(b)
        } else if self.counted(b).ok {
            self.counted(b).structured(b)
        } else {
            self.counted(b)
        }
    }
}

/// The scan after all the bytes given.
pub open spec fn scan(bytes: Seq<u8>) -> Scan
    decreases bytes.len(),
{
    if bytes.len() == 0 {
        Scan::start()
    } else {
        scan(bytes.drop_last()).step(bytes.last())
    }
}

/// Whether a text stays within the limits of the parser: no more than
/// `DEPTH` arrays and objects are open at any place, on no path of nested
/// objects do the keys take more than `KEY_BYTES` bytes together, no number
/// has an exponent, no closing brace follows a comma, and no array has more
/// items than 32 bits count.
pub open spec fn within_limits(text: Seq<char>) -> bool {
    scan(vstd::utf8::encode_utf8(text)).ok
}

/// The scan as it is carried through a text.
pub struct Scanner {
    ok: bool,
    frames: Vec<Frame>,
    used: usize,
    in_string: bool,
    escaped: bool,
    is_key: bool,
    len: usize,
    key_next: bool,
    after_comma: bool,
    after_digit: bool,
}

impl View for Scanner {
    type V = Scan;

    closed spec fn view(&self) -> Scan {
        Scan {
            ok: self.ok,
            frames: self.frames@,
            used: self.used,
            in_string: self.in_string,
            escaped: self.escaped,
            is_key: self.is_key,
            len: self.len,
            key_next: self.key_next,
            after_comma: self.after_comma,
            after_digit: self.after_digit,
        }
    }
}

impl Scanner {
    /// The scan before the first byte.
    pub fn new() -> (s: Scanner)
        ensures
            s@ == Scan::start(),
    {
        Scanner {
            ok: true,
            frames: Vec::new(),
            used: 0,
            in_string: false,
            escaped: false,
            is_key: false,
            len: 0,
            key_next: false,
            after_comma: false,
            after_digit: false,
        }
    }

    /// Whether the bytes taken so far stay within the limits.
    pub fn ok(&self) -> (r: bool)
        ensures
            r == self@.ok,
    {
        self.ok
    }

    fn grow(&mut self)
        ensures
            final(self)@ == (Scan { len: grown(old(self)@.len), ..old(self)@ }),
    {
        if self.len <= KEY_BYTES {
            self.len = self.len + 1;
        }
    }

    fn base(&self) -> (r: usize)
        ensures
            r == self@.base(),
    {
        if self.frames.len() > 0 {
            self.frames[self.frames.len() - 1].base
        } else {
            0
        }
    }

    fn string_closed(&mut self)
        ensures
            final(self)@ == old(self)@.string_closed(),
    {
        if !self.is_key {
            self.in_string = false;
        } else {
            let base = self.base();
            if self.len <= KEY_BYTES && base <= KEY_BYTES - self.len {
                self.in_string = false;
                self.used = base + self.len;
            } else {
                self.ok = false;
            }
        }
    }

    fn in_text(&mut self, b: u8)
        ensures
            final(self)@ == old(self)@.in_text(b),
    {
        if self.escaped {
            self.escaped = false;
            self.grow();
        } else if b == 0x5c {
            self.escaped = true;
            self.grow();
        } else if b == 0x22 {
            self.string_closed();
        } else {
            self.grow();
        }
    }

    fn counted(&mut self, b: u8)
        ensures
            final(self)@ == old(self)@.counted(b),
    {
        if self.after_digit && (b == 0x65 || b == 0x45) {
            self.ok = false;
        } else {
            self.after_digit = 0x30 <= b && b <= 0x39;
        }
    }

    fn closed(&mut self)
        ensures
            final(self)@ == old(self)@.closed(),
    {
        match self.frames.pop() {
            Some(frame) => {
                self.used = frame.base;
            },
            None => {},
        }
        self.key_next = false;
        self.after_comma = false;
    }

    fn separated(&mut self)
        ensures
            final(self)@ == old(self)@.separated(),
    {
        let n = self.frames.len();
        if n == 0 {
            self.key_next = false;
            self.after_comma = true;
        } else {
            let top = self.frames[n - 1];
            if top.object {
                self.used = top.base;
                self.key_next = true;
                self.after_comma = true;
            } else if top.index < u32::MAX {
                self.frames.set(
                    n - 1,
                    Frame { object: top.object, base: top.base, index: top.index + 1 },
                );
                self.key_next = false;
                self.after_comma = true;
            } else {
                self.ok = false;
            }
        }
    }

    fn opened(&mut self, object: bool)
        ensures
            final(self)@ == old(self)@.opened(object),
    {
        if self.frames.len() < DEPTH {
            self.frames.push(Frame { object, base: self.used, index: 0 });
            self.key_next = object;
            self.after_comma = false;
        } else {
            self.ok = false;
        }
    }

    fn structured(&mut self, b: u8)
        ensures
            final(self)@ == old(self)@.structured(b),
    {
        if b == 0x20 || b == 0x0a || b == 0x09 || b == 0x0d {
        } else if b == 0x22 {
            let n = self.frames.len();
            self.is_key = self.key_next && n > 0 && self.frames[n - 1].object;
            self.in_string = true;
            self.escaped = false;
            self.len = 0;
            self.key_next = false;
            self.after_comma = false;
        } else if b == 0x7b {
            self.opened(true);
        } else if b == 0x5b {
            self.opened(false);
        } else if b == 0x7d {
            if self.after_comma {
                self.ok = false;
            } else {
                self.closed();
            }
        } else if b == 0x5d {
            self.closed();
        } else if b == 0x2c {
            self.separated();
        } else {
            self.key_next = false;
            self.after_comma = false;
        }
    }

    /// Takes one more byte.
    pub fn step(&mut self, b: u8)
        ensures
            final(self)@ == old(self)@.step(b),
    {
        if !self.ok {
        } else if self.in_string {
            self.in_text(b);
        } else {
            self.counted(b);
            if self.ok {
                self.structured(b);
            }
        }
    }
}

/// Tells whether a text stays within the limits of the parser.
pub fn check(text: &str) -> (r: bool)
    ensures
        r == within_limits(text@),
{
    let bytes = text.as_bytes();
    let mut scanner = Scanner::new();
    let mut i: usize = 0;
    while i < bytes.len()
        invariant
            i <= bytes@.len(),
            scanner@ == scan(bytes@.take(i as int)),
        decreases bytes@.len() - i,
    {
        scanner.step(bytes[i]);
        proof {
            let next = bytes@.take(i + 1);
            assert(next.drop_last() =~= bytes@.take(i as int));
            assert(next.last() == bytes@[i as int]);
        }
        i += 1;
    }
    assert(bytes@.take(i as int) =~= bytes@);
    scanner.ok()
}

} // verus!

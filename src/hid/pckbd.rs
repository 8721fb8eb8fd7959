//! # PS/2 keyboard driver
//!
//! The keyboard interrupt only queues the raw bytes it reads (the top half);
//! ordinary code later decodes them into key presses and releases (the bottom
//! half). Bytes follow scancode set 1: a byte below `0x80` presses a key, the
//! same byte with `0x80` added releases it, and `0xE0` opens a two-byte
//! extended sequence.
use vstd::prelude::*;

use crate::hid::queue::{Queue, QueueModel};

verus! {

/// The keys this driver recognises.
#[derive(Clone, Copy, PartialEq, Eq, Debug, Structural)]
pub enum KeyCode {
    At, Excl, Slash, BackSlash, Dot, Comma, Tick,
    N0, N1, N2, N3, N4, N5, N6, N7, N8, N9,
    A, B, C, D, E, F, G, H, I, J, K, L, M,
    N, O, P, Q, R, S, T, U, V, W, X, Y, Z,
}

/// A completed key event.
#[derive(Clone, Copy, PartialEq, Eq, Debug, Structural)]
pub enum ScanCode {
    Press(KeyCode),
    Release(KeyCode),
}

/// The byte that opens an extended sequence.
pub const EXTENDED_PREFIX: u8 = 0xE0;

/// Added to a key's byte when the key is released.
pub const RELEASE_OFFSET: u8 = 0x80;

/// How many raw bytes wait between the interrupt and the decoder.
pub const COMMAND_QUEUE_SIZE: usize = 16;

/// The key that a set-1 make byte stands for, if this driver recognises it.
/// `At` and `Excl` are shifted keys and have no byte of their own.
pub open spec fn spec_key_of(code: u8) -> Option<KeyCode> {
    match code {
        0x02 => Some(KeyCode::N1),
        0x03 => Some(KeyCode::N2),
        0x04 => Some(KeyCode::N3),
        0x05 => Some(KeyCode::N4),
        0x06 => Some(KeyCode::N5),
        0x07 => Some(KeyCode::N6),
        0x08 => Some(KeyCode::N7),
        0x09 => Some(KeyCode::N8),
        0x0A => Some(KeyCode::N9),
        0x0B => Some(KeyCode::N0),
        0x10 => Some(KeyCode::Q),
        0x11 => Some(KeyCode::W),
        0x12 => Some(KeyCode::E),
        0x13 => Some(KeyCode::R),
        0x14 => Some(KeyCode::T),
        0x15 => Some(KeyCode::Y),
        0x16 => Some(KeyCode::U),
        0x17 => Some(KeyCode::I),
        0x18 => Some(KeyCode::O),
        0x19 => Some(KeyCode::P),
        0x1E => Some(KeyCode::A),
        0x1F => Some(KeyCode::S),
        0x20 => Some(KeyCode::D),
        0x21 => Some(KeyCode::F),
        0x22 => Some(KeyCode::G),
        0x23 => Some(KeyCode::H),
        0x24 => Some(KeyCode::J),
        0x25 => Some(KeyCode::K),
        0x26 => Some(KeyCode::L),
        0x29 => Some(KeyCode::Tick),
        0x2B => Some(KeyCode::BackSlash),
        0x2C => Some(KeyCode::Z),
        0x2D => Some(KeyCode::X),
        0x2E => Some(KeyCode::C),
        0x2F => Some(KeyCode::V),
        0x30 => Some(KeyCode::B),
        0x31 => Some(KeyCode::N),
        0x32 => Some(KeyCode::M),
        0x33 => Some(KeyCode::Comma),
        0x34 => Some(KeyCode::Dot),
        0x35 => Some(KeyCode::Slash),
        _ => None,
    }
}

/// The key that a set-1 make byte stands for, if this driver recognises it.
pub fn key_of(code: u8) -> (r: Option<KeyCode>)
    ensures
        r == spec_key_of(code),
{
    match code {
        0x02 => Some(KeyCode::N1),
        0x03 => Some(KeyCode::N2),
        0x04 => Some(KeyCode::N3),
        0x05 => Some(KeyCode::N4),
        0x06 => Some(KeyCode::N5),
        0x07 => Some(KeyCode::N6),
        0x08 => Some(KeyCode::N7),
        0x09 => Some(KeyCode::N8),
        0x0A => Some(KeyCode::N9),
        0x0B => Some(KeyCode::N0),
        0x10 => Some(KeyCode::Q),
        0x11 => Some(KeyCode::W),
        0x12 => Some(KeyCode::E),
        0x13 => Some(KeyCode::R),
        0x14 => Some(KeyCode::T),
        0x15 => Some(KeyCode::Y),
        0x16 => Some(KeyCode::U),
        0x17 => Some(KeyCode::I),
        0x18 => Some(KeyCode::O),
        0x19 => Some(KeyCode::P),
        0x1E => Some(KeyCode::A),
        0x1F => Some(KeyCode::S),
        0x20 => Some(KeyCode::D),
        0x21 => Some(KeyCode::F),
        0x22 => Some(KeyCode::G),
        0x23 => Some(KeyCode::H),
        0x24 => Some(KeyCode::J),
        0x25 => Some(KeyCode::K),
        0x26 => Some(KeyCode::L),
        0x29 => Some(KeyCode::Tick),
        0x2B => Some(KeyCode::BackSlash),
        0x2C => Some(KeyCode::Z),
        0x2D => Some(KeyCode::X),
        0x2E => Some(KeyCode::C),
        0x2F => Some(KeyCode::V),
        0x30 => Some(KeyCode::B),
        0x31 => Some(KeyCode::N),
        0x32 => Some(KeyCode::M),
        0x33 => Some(KeyCode::Comma),
        0x34 => Some(KeyCode::Dot),
        0x35 => Some(KeyCode::Slash),
        _ => None,
    }
}

impl KeyCode {
    /// The ASCII byte a key echoes as, letters in lower case.
    pub open spec fn spec_ascii(self) -> u8 {
        match self {
            KeyCode::At => 0x40, // '@'
            KeyCode::Excl => 0x21, // '!'
            KeyCode::Slash => 0x2F, // '/'
            KeyCode::BackSlash => 0x5C, // '\'
            KeyCode::Dot => 0x2E, // '.'
            KeyCode::Comma => 0x2C, // ','
            KeyCode::Tick => 0x60, // '`'
            KeyCode::N0 => 0x30, // '0'
            KeyCode::N1 => 0x31, // '1'
            KeyCode::N2 => 0x32, // '2'
            KeyCode::N3 => 0x33, // '3'
            KeyCode::N4 => 0x34, // '4'
            KeyCode::N5 => 0x35, // '5'
            KeyCode::N6 => 0x36, // '6'
            KeyCode::N7 => 0x37, // '7'
            KeyCode::N8 => 0x38, // '8'
            KeyCode::N9 => 0x39, // '9'
            KeyCode::A => 0x61, // 'a'
            KeyCode::B => 0x62, // 'b'
            KeyCode::C => 0x63, // 'c'
            KeyCode::D => 0x64, // 'd'
            KeyCode::E => 0x65, // 'e'
            KeyCode::F => 0x66, // 'f'
            KeyCode::G => 0x67, // 'g'
            KeyCode::H => 0x68, // 'h'
            KeyCode::I => 0x69, // 'i'
            KeyCode::J => 0x6A, // 'j'
            KeyCode::K => 0x6B, // 'k'
            KeyCode::L => 0x6C, // 'l'
            KeyCode::M => 0x6D, // 'm'
            KeyCode::N => 0x6E, // 'n'
            KeyCode::O => 0x6F, // 'o'
            KeyCode::P => 0x70, // 'p'
            KeyCode::Q => 0x71, // 'q'
            KeyCode::R => 0x72, // 'r'
            KeyCode::S => 0x73, // 's'
            KeyCode::T => 0x74, // 't'
            KeyCode::U => 0x75, // 'u'
            KeyCode::V => 0x76, // 'v'
            KeyCode::W => 0x77, // 'w'
            KeyCode::X => 0x78, // 'x'
            KeyCode::Y => 0x79, // 'y'
            KeyCode::Z => 0x7A, // 'z'
        }
    }

    /// The ASCII byte a key echoes as, letters in lower case.
    pub fn ascii(self) -> (r: u8)
        ensures
            r == self.spec_ascii(),
    {
        match self {
            KeyCode::At => 0x40, // '@'
            KeyCode::Excl => 0x21, // '!'
            KeyCode::Slash => 0x2F, // '/'
            KeyCode::BackSlash => 0x5C, // '\'
            KeyCode::Dot => 0x2E, // '.'
            KeyCode::Comma => 0x2C, // ','
            KeyCode::Tick => 0x60, // '`'
            KeyCode::N0 => 0x30, // '0'
            KeyCode::N1 => 0x31, // '1'
            KeyCode::N2 => 0x32, // '2'
            KeyCode::N3 => 0x33, // '3'
            KeyCode::N4 => 0x34, // '4'
            KeyCode::N5 => 0x35, // '5'
            KeyCode::N6 => 0x36, // '6'
            KeyCode::N7 => 0x37, // '7'
            KeyCode::N8 => 0x38, // '8'
            KeyCode::N9 => 0x39, // '9'
            KeyCode::A => 0x61, // 'a'
            KeyCode::B => 0x62, // 'b'
            KeyCode::C => 0x63, // 'c'
            KeyCode::D => 0x64, // 'd'
            KeyCode::E => 0x65, // 'e'
            KeyCode::F => 0x66, // 'f'
            KeyCode::G => 0x67, // 'g'
            KeyCode::H => 0x68, // 'h'
            KeyCode::I => 0x69, // 'i'
            KeyCode::J => 0x6A, // 'j'
            KeyCode::K => 0x6B, // 'k'
            KeyCode::L => 0x6C, // 'l'
            KeyCode::M => 0x6D, // 'm'
            KeyCode::N => 0x6E, // 'n'
            KeyCode::O => 0x6F, // 'o'
            KeyCode::P => 0x70, // 'p'
            KeyCode::Q => 0x71, // 'q'
            KeyCode::R => 0x72, // 'r'
            KeyCode::S => 0x73, // 's'
            KeyCode::T => 0x74, // 't'
            KeyCode::U => 0x75, // 'u'
            KeyCode::V => 0x76, // 'v'
            KeyCode::W => 0x77, // 'w'
            KeyCode::X => 0x78, // 'x'
            KeyCode::Y => 0x79, // 'y'
            KeyCode::Z => 0x7A, // 'z'
        }
    }
}

/// One step of the decoder: from whether an extended sequence is open and
/// the next byte, to the new state and the event completed, if any. An
/// extended sequence is consumed whole and yields no event; a byte of no
/// recognised key is dropped.
pub open spec fn decode_step(extended: bool, byte: u8) -> (bool, Option<ScanCode>) {
    if extended {
        (false, None)
    } else if byte == EXTENDED_PREFIX {
        (true, None)
    } else if byte >= RELEASE_OFFSET {
        match spec_key_of((byte - RELEASE_OFFSET) as u8) {
            Some(k) => (false, Some(ScanCode::Release(k))),
            None => (false, None),
        }
    } else {
        match spec_key_of(byte) {
            Some(k) => (false, Some(ScanCode::Press(k))),
            None => (false, None),
        }
    }
}

/// Decoding queued bytes up to the first completed event: how many bytes
/// are consumed, the decoder state after them, and the event, or `None`
/// when the bytes run out first.
pub open spec fn first_event(extended: bool, bytes: Seq<u8>) -> (nat, bool, Option<ScanCode>)
    decreases bytes.len(),
{
    if bytes.len() == 0 {
        (0, extended, None)
    } else {
        let (next, event) = decode_step(extended, bytes[0]);
        if event is Some {
            (1, next, event)
        } else {
            let (n, last, found) = first_event(next, bytes.drop_first());
            (n + 1, last, found)
        }
    }
}

/// What a keyboard holds: the raw bytes waiting to be decoded and whether
/// an extended sequence is open.
pub struct KeyboardModel {
    pub pending: QueueModel<u8>,
    pub extended: bool,
}

/// A PS/2 keyboard: the queue that the interrupt fills and the decoder
/// state of its consumer.
pub struct PCKeyboard {
    command_queue: Queue<u8>,
    extended: bool,
}

impl View for PCKeyboard {
    type V = KeyboardModel;

    closed spec fn view(&self) -> KeyboardModel {
        KeyboardModel { pending: self.command_queue@, extended: self.extended }
    }
}

impl PCKeyboard {
    pub closed spec fn wf(&self) -> bool {
        self.command_queue.wf()
    }

    /// A keyboard with no pending bytes and no open sequence.
    pub fn new() -> (r: PCKeyboard)
        ensures
            r.wf(),
            r@ == (KeyboardModel {
                pending: QueueModel::<u8>::empty(COMMAND_QUEUE_SIZE as nat),
                extended: false,
            }),
    {
        PCKeyboard { command_queue: Queue::new(COMMAND_QUEUE_SIZE), extended: false }
    }

    /// Top half: queues a raw byte read by the interrupt handler. Bounded
    /// work, no allocation; when the queue is full the byte is dropped and
    /// `false` returned.
    pub fn push_scancode(&mut self, byte: u8) -> (r: bool)
        requires
            old(self).wf(),
        ensures
            final(self).wf(),
            r == old(self)@.pending.has_room(),
            final(self)@ == (KeyboardModel { pending: old(self)@.pending.enqueued(byte), ..old(self)@ }),
    {
        match self.command_queue.enqueue(&byte) {
            Ok(()) => true,
            Err(_) => false,
        }
    }

    /// Feeds one byte to the decoder and returns the event it completes.
    pub fn decode(&mut self, byte: u8) -> (r: Option<ScanCode>)
        requires
            old(self).wf(),
        ensures
            final(self).wf(),
            (final(self)@.extended, r) == decode_step(old(self)@.extended, byte),
            final(self)@.pending == old(self)@.pending,
    {
        if self.extended {
            self.extended = false;
            None
        } else if byte == EXTENDED_PREFIX {
            self.extended = true;
            None
        } else if byte >= RELEASE_OFFSET {
            match key_of(byte - RELEASE_OFFSET) {
                Some(k) => Some(ScanCode::Release(k)),
                None => None,
            }
        } else {
            match key_of(byte) {
                Some(k) => Some(ScanCode::Press(k)),
                None => None,
            }
        }
    }

    /// Bottom half: takes queued bytes until one completes an event and
    /// returns it; `None` once the queue is empty.
    pub fn next_event(&mut self) -> (r: Option<ScanCode>)
        requires
            old(self).wf(),
        ensures
            final(self).wf(),
            ({
                let (n, state, event) = first_event(old(self)@.extended, old(self)@.pending.items);
                &&& r == event
                &&& final(self)@.extended == state
                &&& final(self)@.pending.items == old(self)@.pending.items.skip(n as int)
                &&& final(self)@.pending.capacity == old(self)@.pending.capacity
            }),
    {
        let ghost start = self@;
        let ghost mut taken: nat = 0;
        loop
            invariant
                self.wf(),
                start == old(self)@,
                taken <= start.pending.items.len(),
                self@.pending.items == start.pending.items.skip(taken as int),
                self@.pending.capacity == start.pending.capacity,
                first_event(start.extended, start.pending.items) == ({
                    let (n, state, event) = first_event(self@.extended, self@.pending.items);
                    (n + taken, state, event)
                }),
            decreases self@.pending.items.len(),
        {
            let ghost before = self@;
            match self.command_queue.dequeue() {
                None => {
                    assert(first_event(before.extended, before.pending.items) == (0nat, before.extended, None::<ScanCode>));
                    return None;
                }
                Some(byte) => {
                    let event = self.decode(byte);
                    proof {
                        assert(byte == before.pending.items[0]);
                        assert(before.pending.items.drop_first() == self@.pending.items);
                        if event is Some {
                            assert(first_event(before.extended, before.pending.items) == (1nat, self@.extended, event));
                        } else {
                            let (n, state, found) = first_event(self@.extended, self@.pending.items);
                            assert(first_event(before.extended, before.pending.items) == (n + 1, state, found));
                        }
                        assert(before.pending.items.drop_first() =~= self@.pending.items);
                        assert(start.pending.items.skip(taken as int + 1) =~= self@.pending.items);
                        taken = taken + 1;
                    }
                    if event.is_some() {
                        return event;
                    }
                }
            }
        }
    }
}

} // verus!

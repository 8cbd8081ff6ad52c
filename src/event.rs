//! Decoding of native event records into a closed set of safe events.
//!
//! A native record is `RECORD_LEN` bytes, little-endian. Its first word is
//! the tag; which of the later fields are meaningful depends on the tag
//! alone, so the decoder reads the tag first and only then the fields of
//! that arm.
use vstd::prelude::*;
use crate::key::{Mod, Sym, MOD_ALL};
use crate::video::Video;
use crate::window;

verus! {

/// Length in bytes of one native event record.
pub const RECORD_LEN: usize = 56;

pub const TAG_QUIT: u32 = 0x100;
pub const TAG_WINDOW: u32 = 0x200;
pub const TAG_KEY_DOWN: u32 = 0x300;
pub const TAG_KEY_UP: u32 = 0x301;
pub const TAG_TEXT_INPUT: u32 = 0x303;
pub const TAG_BUTTON_DOWN: u32 = 0x401;
pub const TAG_BUTTON_UP: u32 = 0x402;

pub const BUTTON_LEFT: u8 = 1;
pub const BUTTON_MIDDLE: u8 = 2;
pub const BUTTON_RIGHT: u8 = 3;

/// The native tick count at which an event was queued.
pub type Stamp = u32;

/// The little-endian `u16` at byte `i` of `s`.
pub open spec fn u16_le(s: Seq<u8>, i: int) -> u16 {
    (s[i] as u16) | ((s[i + 1] as u16) << 8u16)
}

/// The little-endian `u32` at byte `i` of `s`.
pub open spec fn u32_le(s: Seq<u8>, i: int) -> u32 {
    (s[i] as u32) | ((s[i + 1] as u32) << 8u32) | ((s[i + 2] as u32) << 16u32) | ((s[i + 3]
        as u32) << 24u32)
}

/// The little-endian `i32` at byte `i` of `s`.
pub open spec fn i32_le(s: Seq<u8>, i: int) -> i32 {
    u32_le(s, i) as i32
}

fn read_u16(s: &[u8], i: usize) -> (r: u16)
    requires
        i + 2 <= s@.len(),
    ensures
        r == u16_le(s@, i as int),
{
    (s[i] as u16) | ((s[i + 1] as u16) << 8u16)
}

fn read_u32(s: &[u8], i: usize) -> (r: u32)
    requires
        i + 4 <= s@.len(),
    ensures
        r == u32_le(s@, i as int),
{
    (s[i] as u32) | ((s[i + 1] as u32) << 8u32) | ((s[i + 2] as u32) << 16u32) | ((s[i + 3]
        as u32) << 24u32)
}

fn read_i32(s: &[u8], i: usize) -> (r: i32)
    requires
        i + 4 <= s@.len(),
    ensures
        r == i32_le(s@, i as int),
{
    read_u32(s, i) as i32
}

/// A pointer button, by its native number.
#[derive(Clone, Copy, Debug, PartialEq, Eq, Structural, Hash)]
pub struct Button(u8);

impl Button {
    pub closed spec fn spec_raw(&self) -> u8 {
        self.0
    }

    /// The button with native number `raw`.
    pub fn from_raw(raw: u8) -> (r: Button)
        ensures
            r.spec_raw() == raw,
    {
        Button(raw)
    }

    /// The native number of this button.
    pub fn raw(self) -> (r: u8)
        ensures
            r == self.spec_raw(),
    {
        self.0
    }
}

/// One decoded event. It owns nothing of the native layer and stays valid
/// after the record it came from is gone. A tag that this decoder does not
/// know is kept as `Unrecognized`.
#[derive(Clone, Copy, Debug, PartialEq, Eq, Hash)]
pub enum Event {
    Window(window::Id, window::Event),
    Keyboard { wid: window::Id, state: bool, repeat: bool, sym: Sym },
    Pointer { wid: window::Id, state: bool, pos: [i32; 2], button: Button },
    Text { wid: window::Id, text: [u8; 32] },
    Quit,
    Unrecognized(u32),
}

/// The tag of a record.
pub open spec fn tag_of(rec: Seq<u8>) -> u32 {
    u32_le(rec, 0)
}

/// The tags that the decoder gives an event of their own.
pub open spec fn is_known_tag(tag: u32) -> bool {
    tag == TAG_QUIT || tag == TAG_WINDOW || tag == TAG_KEY_DOWN || tag == TAG_KEY_UP || tag
        == TAG_TEXT_INPUT || tag == TAG_BUTTON_DOWN || tag == TAG_BUTTON_UP
}

/// `e` is the event that record `rec` describes.
pub open spec fn decodes_to(rec: Seq<u8>, e: Event) -> bool {
    let tag = tag_of(rec);
    let wid = u32_le(rec, 8);
    if tag == TAG_QUIT {
        e == Event::Quit
    } else if tag == TAG_WINDOW {
        e matches Event::Window(id, w) && id == wid && window::decodes_to(
            rec[12],
            i32_le(rec, 16),
            i32_le(rec, 20),
            w,
        )
    } else if tag == TAG_KEY_DOWN || tag == TAG_KEY_UP {
        e matches Event::Keyboard { wid: id, state, repeat, sym } && id == wid && state == (tag
            == TAG_KEY_DOWN) && repeat == (rec[13] != 0) && sym.scan == u32_le(rec, 16) && sym.sym
            == i32_le(rec, 20) && sym.mod_.spec_bits() == u16_le(rec, 24) & MOD_ALL
            && sym.x is None
    } else if tag == TAG_BUTTON_DOWN || tag == TAG_BUTTON_UP {
        e matches Event::Pointer { wid: id, state, pos, button } && id == wid && state == (tag
            == TAG_BUTTON_DOWN) && pos@ == seq![i32_le(rec, 20), i32_le(rec, 24)]
            && button.spec_raw() == rec[16]
    } else if tag == TAG_TEXT_INPUT {
        e matches Event::Text { wid: id, text } && id == wid && text@ == rec.subrange(12, 44)
    } else {
        e == Event::Unrecognized(tag)
    }
}

impl Event {
    /// Decodes one native record. Every tag gives an event: an unknown one
    /// gives `Unrecognized` with that tag.
    pub fn decode(rec: &[u8]) -> (r: Event)
        requires
            rec@.len() == RECORD_LEN,
        ensures
            decodes_to(rec@, r),
    {
        let tag = read_u32(rec, 0);
        if tag == TAG_QUIT {
            Event::Quit
        } else if tag == TAG_WINDOW {
            let w = window::Event::from_raw(rec[12], read_i32(rec, 16), read_i32(rec, 20));
            Event::Window(read_u32(rec, 8), w)
        } else if tag == TAG_KEY_DOWN || tag == TAG_KEY_UP {
            let sym = Sym {
                scan: read_u32(rec, 16),
                sym: read_i32(rec, 20),
                mod_: Mod::from_bits_truncate(read_u16(rec, 24)),
                x: None,
            };
            Event::Keyboard {
                wid: read_u32(rec, 8),
                state: tag == TAG_KEY_DOWN,
                repeat: rec[13] != 0,
                sym,
            }
        } else if tag == TAG_BUTTON_DOWN || tag == TAG_BUTTON_UP {
            Event::Pointer {
                wid: read_u32(rec, 8),
                state: tag == TAG_BUTTON_DOWN,
                pos: [read_i32(rec, 20), read_i32(rec, 24)],
                button: Button::from_raw(rec[16]),
            }
        } else if tag == TAG_TEXT_INPUT {
            let mut text = [0u8; 32];
            let mut i: usize = 0;
            while i < 32
                invariant
                    rec@.len() == RECORD_LEN,
                    i <= 32,
                    forall|j: int| 0 <= j < i ==> text@[j] == rec@[12 + j],
                decreases 32 - i,
            {
                text[i] = rec[12 + i];
                i += 1;
            }
            assert(text@ == rec@.subrange(12, 44));
            Event::Text { wid: read_u32(rec, 8), text }
        } else {
            Event::Unrecognized(tag)
        }
    }

    /// The tick count of a native record.
    pub fn stamp(rec: &[u8]) -> (r: Stamp)
        requires
            rec@.len() == RECORD_LEN,
        ensures
            r == u32_le(rec@, 4),
    {
        read_u32(rec, 4)
    }
}

/// Pulls events from the native queue of a live video subsystem, one
/// record at a time: blocking until one comes, or not, as `wait` says.
pub struct Iter<'a, 'b> {
    wait: bool,
    video: &'a Video<'b>,
}

impl<'b> Video<'b> {
    /// The events of this video subsystem; `wait` asks for a blocking pull.
    pub fn events<'a>(&'a self, wait: bool) -> (r: Iter<'a, 'b>)
        ensures
            r.spec_waits() == wait,
    {
        Iter { wait, video: self }
    }
}

impl<'a, 'b> Iter<'a, 'b> {
    pub closed spec fn spec_waits(&self) -> bool {
        self.wait
    }

    /// Whether a pull blocks until an event comes, rather than returning at
    /// once on an empty queue.
    pub fn waits(&self) -> (r: bool)
        ensures
            r == self.spec_waits(),
    {
        self.wait
    }

    /// Reads the outcome of one native pull: a positive `status` means that
    /// `rec` holds a record, which gives the event and its tick count;
    /// any other means an empty queue, and gives nothing.
    pub fn next_from(&mut self, status: i32, rec: &[u8]) -> (r: Option<(Event, Stamp)>)
        requires
            rec@.len() == RECORD_LEN,
        ensures
            *final(self) == *old(self),
            r is Some <==> status > 0,
            r is Some ==> decodes_to(rec@, r->Some_0.0) && r->Some_0.1 == u32_le(rec@, 4),
    {
        if status > 0 {
            Some((Event::decode(rec), Event::stamp(rec)))
        } else {
            None
        }
    }
}

/// Decoding is total, with an explicit fallback: a record whose tag has no
/// event of its own decodes to `Unrecognized` with that tag, and to nothing
/// else.
pub proof fn lemma_unknown_tag_is_unrecognized(rec: Seq<u8>, e: Event)
    requires
        rec.len() == RECORD_LEN,
        !is_known_tag(tag_of(rec)),
    ensures
        decodes_to(rec, e) <==> e == Event::Unrecognized(tag_of(rec)),
{
}

/// A window record whose sub-tag has no event of its own decodes to a
/// window event `Unrecognized` with that sub-tag, for the window it names.
pub proof fn lemma_unknown_window_sub_tag(rec: Seq<u8>, e: Event)
    requires
        rec.len() == RECORD_LEN,
        tag_of(rec) == TAG_WINDOW,
        !(1 <= rec[12] <= 16),
    ensures
        decodes_to(rec, e) <==> e == Event::Window(
            u32_le(rec, 8),
            window::Event::Unrecognized(rec[12]),
        ),
{
}

} // verus!

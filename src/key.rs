//! Keyboard symbols and modifier sets.
use vstd::prelude::*;

verus! {

/// A physical key position, as the native layer numbers it.
pub type ScanCode = u32;

/// A virtual key code, as the native layer numbers it.
pub type Code = i32;

pub const MOD_LSHIFT: u16 = 0x0001;
pub const MOD_RSHIFT: u16 = 0x0002;
pub const MOD_LCTRL: u16 = 0x0040;
pub const MOD_RCTRL: u16 = 0x0080;
pub const MOD_LALT: u16 = 0x0100;
pub const MOD_RALT: u16 = 0x0200;
pub const MOD_LGUI: u16 = 0x0400;
pub const MOD_RGUI: u16 = 0x0800;
pub const MOD_NUM: u16 = 0x1000;
pub const MOD_CAPS: u16 = 0x2000;
pub const MOD_MODE: u16 = 0x4000;
pub const MOD_SHIFT: u16 = MOD_LSHIFT | MOD_RSHIFT;
pub const MOD_CTRL: u16 = MOD_LCTRL | MOD_RCTRL;
pub const MOD_ALT: u16 = MOD_LALT | MOD_RALT;
pub const MOD_GUI: u16 = MOD_LGUI | MOD_RGUI;

/// Every modifier bit that has a meaning.
pub const MOD_ALL: u16 = 0x7fc3;

/// A set of keyboard modifiers; only bits of `MOD_ALL` are ever set.
#[derive(Clone, Copy, Debug, PartialEq, Eq, Structural, Hash)]
pub struct Mod {
    bits: u16,
}

impl Mod {
    pub closed spec fn spec_bits(&self) -> u16 {
        self.bits
    }

    pub open spec fn wf(&self) -> bool {
        self.spec_bits() & !MOD_ALL == 0
    }

    /// The modifiers of `bits` that have a meaning; the other bits are dropped.
    pub fn from_bits_truncate(bits: u16) -> (r: Mod)
        ensures
            r.spec_bits() == bits & MOD_ALL,
            r.wf(),
    {
        let r = Mod { bits: bits & MOD_ALL };
        assert(bits & MOD_ALL & !MOD_ALL == 0) by (bit_vector);
        r
    }

    /// No modifier.
    pub fn empty() -> (r: Mod)
        ensures
            r.spec_bits() == 0,
            r.wf(),
    {
        assert(0u16 & !MOD_ALL == 0) by (bit_vector);
        Mod { bits: 0 }
    }

    /// The raw modifier bits.
    pub fn bits(&self) -> (r: u16)
        ensures
            r == self.spec_bits(),
    {
        self.bits
    }

    /// Whether every modifier of `other` is in `self`.
    pub fn contains(&self, other: Mod) -> (r: bool)
        ensures
            r == (self.spec_bits() & other.spec_bits() == other.spec_bits()),
    {
        self.bits & other.bits == other.bits
    }

    /// The modifiers in either set.
    pub fn union(&self, other: Mod) -> (r: Mod)
        requires
            self.wf(),
            other.wf(),
        ensures
            r.spec_bits() == self.spec_bits() | other.spec_bits(),
            r.wf(),
    {
        let (a, b) = (self.bits, other.bits);
        assert(a & !MOD_ALL == 0 && b & !MOD_ALL == 0 ==> (a | b) & !MOD_ALL == 0) by (bit_vector);
        Mod { bits: a | b }
    }
}

/// A key as reported by a keyboard event.
#[derive(Clone, Copy, Debug, PartialEq, Eq, Hash)]
pub struct Sym {
    pub scan: ScanCode,
    pub sym: Code,
    pub mod_: Mod,
    pub x: Option<char>,
}

} // verus!

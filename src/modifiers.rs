use vstd::prelude::*;

verus! {

pub const CTRL: u8 = 1;

pub const SHIFT: u8 = 2;

pub const ALT: u8 = 4;

pub const SUPER: u8 = 8;

pub const ISO_LEVEL3_SHIFT: u8 = 16;

pub const ISO_LEVEL5_SHIFT: u8 = 32;

/// Stands for whichever modifier the running backend picks as its main one.
pub const COMPOSITOR: u8 = 64;

/// The bits that name a modifier.
pub const ALL_BITS: u8 = 127;

/// A set of held modifiers, one bit each.
#[derive(Debug, Clone, Copy, PartialEq, Eq, Hash, Structural)]
pub struct Modifiers {
    bits: u8,
}

impl View for Modifiers {
    type V = u8;

    closed spec fn view(&self) -> u8 {
        self.bits
    }
}

impl Modifiers {
    pub open spec fn wf(self) -> bool {
        self@ <= ALL_BITS
    }

    pub fn empty() -> (r: Modifiers)
        ensures
            r@ == 0,
            r.wf(),
    {
        Modifiers { bits: 0 }
    }

    /// The set with the given bits; bits that name no modifier are dropped.
    pub fn from_bits_truncate(bits: u8) -> (r: Modifiers)
        ensures
            r@ == bits & ALL_BITS,
            r.wf(),
    {
        proof {
            assert(bits & 127u8 <= 127u8) by (bit_vector);
        }
        Modifiers { bits: bits & ALL_BITS }
    }

    /// Two sets with the same bits are the same set.
    pub proof fn lemma_view_eq(a: Modifiers, b: Modifiers)
        requires
            a@ == b@,
        ensures
            a == b,
    {
    }

    pub fn bits(&self) -> (r: u8)
        ensures
            r == self@,
    {
        self.bits
    }

    /// Both sets together.
    pub fn union(&self, other: &Modifiers) -> (r: Modifiers)
        requires
            self.wf(),
            other.wf(),
        ensures
            r@ == self@ | other@,
            r.wf(),
    {
        let a = self.bits;
        let b = other.bits;
        proof {
            assert(a <= 127u8 && b <= 127u8 ==> (a | b) <= 127u8) by (bit_vector);
        }
        Modifiers { bits: a | b }
    }

    /// Every modifier of `other` is in this set.
    pub fn contains(&self, other: &Modifiers) -> (r: bool)
        ensures
            r == (self@ & other@ == other@),
    {
        self.bits & other.bits == other.bits
    }
}

/// The modifier that a compositor binding named `Mod` resolves to.
#[derive(Debug, Clone, Copy, PartialEq, Eq, Structural)]
pub enum ModKey {
    Ctrl,
    Shift,
    Alt,
    Super,
    IsoLevel3Shift,
    IsoLevel5Shift,
}

pub open spec fn mod_key_bit(k: ModKey) -> u8 {
    match k {
        ModKey::Ctrl => CTRL,
        ModKey::Shift => SHIFT,
        ModKey::Alt => ALT,
        ModKey::Super => SUPER,
        ModKey::IsoLevel3Shift => ISO_LEVEL3_SHIFT,
        ModKey::IsoLevel5Shift => ISO_LEVEL5_SHIFT,
    }
}

impl ModKey {
    pub fn to_modifiers(&self) -> (r: Modifiers)
        ensures
            r@ == mod_key_bit(*self),
            r.wf(),
    {
        let b: u8 = match self {
            ModKey::Ctrl => CTRL,
            ModKey::Shift => SHIFT,
            ModKey::Alt => ALT,
            ModKey::Super => SUPER,
            ModKey::IsoLevel3Shift => ISO_LEVEL3_SHIFT,
            ModKey::IsoLevel5Shift => ISO_LEVEL5_SHIFT,
        };
        Modifiers { bits: b }
    }
}

} // verus!

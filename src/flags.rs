//! The per-tile flag bits. Several of them combine in one 32-bit mask, so each
//! variant names one bit and the tile types offer a test for it.

use vstd::prelude::*;

verus! {

/// One property bit of a tile's 32-bit flag mask.
#[derive(Clone, Copy, Debug, PartialEq, Eq, Structural)]
pub enum MulTileFlags {
    /// Bit `0x00000001`.
    Background,
    /// Bit `0x00000002`.
    Weapon,
    /// Bit `0x00000004`.
    Transparent,
    /// Bit `0x00000008`.
    Translucent,
    /// Bit `0x00000010`.
    Wall,
    /// Bit `0x00000020`.
    Damaging,
    /// Bit `0x00000040`.
    Impassable,
    /// Bit `0x00000080`.
    Wet,
    /// Bit `0x00000100`.
    Unknown1,
    /// Bit `0x00000200`.
    Surface,
    /// Bit `0x00000400`.
    Bridge,
    /// Bit `0x00000800`.
    Generic,
    /// Bit `0x00001000`.
    Window,
    /// Bit `0x00002000`.
    NoShoot,
    /// Bit `0x00004000`.
    PrefixA,
    /// Bit `0x00008000`.
    PrefixAn,
    /// Bit `0x00010000`.
    Internal,
    /// Bit `0x00020000`.
    Foliage,
    /// Bit `0x00040000`.
    PartialHue,
    /// Bit `0x00080000`.
    Unknown2,
    /// Bit `0x00100000`.
    MapTile,
    /// Bit `0x00200000`.
    Container,
    /// Bit `0x00400000`.
    Wearable,
    /// Bit `0x00800000`.
    LightSource,
    /// Bit `0x01000000`.
    Animated,
    /// Bit `0x02000000`.
    NoDiagonal,
    /// Bit `0x04000000`.
    Unknown3,
    /// Bit `0x08000000`.
    Armor,
    /// Bit `0x10000000`.
    Roof,
    /// Bit `0x20000000`.
    Door,
    /// Bit `0x40000000`.
    StairBack,
    /// Bit `0x80000000`.
    StairRight,
}

impl MulTileFlags {
    /// The index of this flag's bit, counted from the least significant bit.
    pub open spec fn bit_index(self) -> u32 {
        match self {
            MulTileFlags::Background => 0,
            MulTileFlags::Weapon => 1,
            MulTileFlags::Transparent => 2,
            MulTileFlags::Translucent => 3,
            MulTileFlags::Wall => 4,
            MulTileFlags::Damaging => 5,
            MulTileFlags::Impassable => 6,
            MulTileFlags::Wet => 7,
            MulTileFlags::Unknown1 => 8,
            MulTileFlags::Surface => 9,
            MulTileFlags::Bridge => 10,
            MulTileFlags::Generic => 11,
            MulTileFlags::Window => 12,
            MulTileFlags::NoShoot => 13,
            MulTileFlags::PrefixA => 14,
            MulTileFlags::PrefixAn => 15,
            MulTileFlags::Internal => 16,
            MulTileFlags::Foliage => 17,
            MulTileFlags::PartialHue => 18,
            MulTileFlags::Unknown2 => 19,
            MulTileFlags::MapTile => 20,
            MulTileFlags::Container => 21,
            MulTileFlags::Wearable => 22,
            MulTileFlags::LightSource => 23,
            MulTileFlags::Animated => 24,
            MulTileFlags::NoDiagonal => 25,
            MulTileFlags::Unknown3 => 26,
            MulTileFlags::Armor => 27,
            MulTileFlags::Roof => 28,
            MulTileFlags::Door => 29,
            MulTileFlags::StairBack => 30,
            MulTileFlags::StairRight => 31,
        }
    }

    /// The mask with only this flag's bit set.
    pub open spec fn mask(self) -> u32 {
        1u32 << self.bit_index()
    }

    /// The index of this flag's bit, counted from the least significant bit.
    pub fn index(self) -> (r: u32)
        ensures
            r == self.bit_index(),
            r < 32,
    {
        match self {
            MulTileFlags::Background => 0,
            MulTileFlags::Weapon => 1,
            MulTileFlags::Transparent => 2,
            MulTileFlags::Translucent => 3,
            MulTileFlags::Wall => 4,
            MulTileFlags::Damaging => 5,
            MulTileFlags::Impassable => 6,
            MulTileFlags::Wet => 7,
            MulTileFlags::Unknown1 => 8,
            MulTileFlags::Surface => 9,
            MulTileFlags::Bridge => 10,
            MulTileFlags::Generic => 11,
            MulTileFlags::Window => 12,
            MulTileFlags::NoShoot => 13,
            MulTileFlags::PrefixA => 14,
            MulTileFlags::PrefixAn => 15,
            MulTileFlags::Internal => 16,
            MulTileFlags::Foliage => 17,
            MulTileFlags::PartialHue => 18,
            MulTileFlags::Unknown2 => 19,
            MulTileFlags::MapTile => 20,
            MulTileFlags::Container => 21,
            MulTileFlags::Wearable => 22,
            MulTileFlags::LightSource => 23,
            MulTileFlags::Animated => 24,
            MulTileFlags::NoDiagonal => 25,
            MulTileFlags::Unknown3 => 26,
            MulTileFlags::Armor => 27,
            MulTileFlags::Roof => 28,
            MulTileFlags::Door => 29,
            MulTileFlags::StairBack => 30,
            MulTileFlags::StairRight => 31,
        }
    }

    /// The mask with only this flag's bit set.
    pub fn bits(self) -> (r: u32)
        ensures
            r == self.mask(),
    {
        1u32 << self.index()
    }
}

/// Whether `flags` has the bit of `flag` set.
pub open spec fn has_flag_spec(flags: u32, flag: MulTileFlags) -> bool {
    flags & flag.mask() != 0
}

} // verus!

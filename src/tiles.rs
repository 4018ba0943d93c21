//! The file layout, the decoded tables and the decoder.
//!
//! The file is a run of groups. Each group is a 4-byte header, which is not
//! interpreted, followed by 32 fixed-size records. The first 512 groups hold
//! land tile records; every group after them holds static tile records. All
//! multi-byte integers are little-endian and records are packed.

use crate::cursor::{ByteCursor, le_u32};
use crate::flags::{MulTileFlags, has_flag_spec};
use vstd::arithmetic::div_mod::{lemma_fundamental_div_mod, lemma_fundamental_div_mod_converse};
use vstd::prelude::*;

verus! {

/// Bytes of the header that opens each group.
pub const GROUP_HEADER_SIZE: usize = 4;

/// Records in each group.
pub const TILES_PER_GROUP: usize = 32;

/// Bytes of the raw name that closes each record.
pub const TILE_NAME_SIZE: usize = 20;

/// Bytes of a land record: flags (4), texture id (2), name (20).
pub const LAND_RECORD_SIZE: usize = 26;

/// Bytes of a land group: its header and its records.
pub const LAND_GROUP_SIZE: usize = 836;

/// Land groups at the start of every file.
pub const LAND_GROUP_COUNT: usize = 512;

/// Land tiles in every file.
pub const LAND_TILE_COUNT: usize = 16384;

/// Bytes of the land region, which the static groups follow.
pub const LAND_REGION_SIZE: usize = 428032;

/// Offset of the height within a static record.
pub const STATIC_HEIGHT_OFFSET: usize = 16;

/// Bytes of a static record: flags (4), weight, quality, a reserved 16-bit
/// field, a reserved byte, quantity, animation id (2), a reserved byte, hue,
/// a reserved 16-bit field, height, name (20).
pub const STATIC_RECORD_SIZE: usize = 37;

/// Bytes of a static group: its header and its records.
pub const STATIC_GROUP_SIZE: usize = 1188;

/// Where the record of land tile `id` starts in the file.
pub open spec fn land_record_offset(id: int) -> int {
    (id / 32) * LAND_GROUP_SIZE + GROUP_HEADER_SIZE + (id % 32) * LAND_RECORD_SIZE
}

/// Where the record of static tile `id` starts in the file.
pub open spec fn static_record_offset(id: int) -> int {
    LAND_REGION_SIZE + (id / 32) * STATIC_GROUP_SIZE + GROUP_HEADER_SIZE + (id % 32)
        * STATIC_RECORD_SIZE
}

/// A file of `len` bytes holds the land region and a whole number of static groups.
pub open spec fn well_formed_length(len: nat) -> bool {
    len >= LAND_REGION_SIZE && (len - LAND_REGION_SIZE) % (STATIC_GROUP_SIZE as int) == 0
}

/// Static groups in a file of `len` bytes.
pub open spec fn static_group_count(len: nat) -> int {
    (len - LAND_REGION_SIZE) / (STATIC_GROUP_SIZE as int)
}

/// The error that decoding a file of `len` bytes meets, if any.
pub open spec fn layout_error(len: nat) -> Option<TileDataError> {
    if len < LAND_REGION_SIZE {
        Some(TileDataError::TruncatedData)
    } else if !well_formed_length(len) {
        Some(TileDataError::MalformedLayout)
    } else {
        None
    }
}

/// Why a file could not be decoded.
#[derive(Clone, Copy, Debug, PartialEq, Eq, Structural)]
pub enum TileDataError {
    /// The file ends before the land region does.
    TruncatedData,
    /// What follows the land region is not a whole number of static groups.
    MalformedLayout,
}

/// What the decoder keeps of a land tile.
#[derive(Clone, Copy, Debug, PartialEq, Eq, Structural)]
pub struct LandTileData {
    pub flags: u32,
}

/// What the decoder keeps of a static tile.
#[derive(Clone, Copy, Debug, PartialEq, Eq, Structural)]
pub struct StaticTileData {
    pub flags: u32,
    pub height: u8,
}

impl LandTileData {
    /// Reads one land record and keeps its flags; the texture id and the name
    /// are consumed and dropped.
    pub fn decode(cur: &mut ByteCursor) -> (r: LandTileData)
        requires
            old(cur).pos() + LAND_RECORD_SIZE <= old(cur).data().len(),
        ensures
            final(cur).data() == old(cur).data(),
            final(cur).pos() == old(cur).pos() + LAND_RECORD_SIZE,
            r.flags == le_u32(old(cur).data(), old(cur).pos()),
    {
        let flags = cur.read_u32();
        let _texture_id = cur.read_u16();
        cur.skip(TILE_NAME_SIZE);
        LandTileData { flags }
    }

    /// Whether this tile has `flag`.
    pub fn has_flag(&self, flag: MulTileFlags) -> (r: bool)
        ensures
            r == has_flag_spec(self.flags, flag),
    {
        self.flags & flag.bits() != 0
    }
}

impl StaticTileData {
    /// Reads one static record, field by field in file order, and keeps its
    /// flags and height; the other fields are consumed and dropped.
    pub fn decode(cur: &mut ByteCursor) -> (r: StaticTileData)
        requires
            old(cur).pos() + STATIC_RECORD_SIZE <= old(cur).data().len(),
        ensures
            final(cur).data() == old(cur).data(),
            final(cur).pos() == old(cur).pos() + STATIC_RECORD_SIZE,
            r.flags == le_u32(old(cur).data(), old(cur).pos()),
            r.height == old(cur).data()[old(cur).pos() + STATIC_HEIGHT_OFFSET],
    {
        let flags = cur.read_u32();
        let _weight = cur.read_u8();
        let _quality = cur.read_u8();
        let _unknown1 = cur.read_u16();
        let _unknown2 = cur.read_u8();
        let _quantity = cur.read_u8();
        let _anim_id = cur.read_u16();
        let _unknown3 = cur.read_u8();
        let _hue = cur.read_u8();
        let _unknown4 = cur.read_u16();
        let height = cur.read_u8();
        cur.skip(TILE_NAME_SIZE);
        StaticTileData { flags, height }
    }

    /// Whether this tile has `flag`.
    pub fn has_flag(&self, flag: MulTileFlags) -> (r: bool)
        ensures
            r == has_flag_spec(self.flags, flag),
    {
        self.flags & flag.bits() != 0
    }
}

/// The two lookup tables of a decoded file, indexed by tile id.
#[derive(Debug)]
pub struct TileData {
    pub land_tiles: Vec<LandTileData>,
    pub static_tiles: Vec<StaticTileData>,
}

impl TileData {
    /// `self` holds exactly what the file `data` describes: one entry per
    /// record, in file order, each with the fields read from its record.
    pub open spec fn decodes_from(&self, data: Seq<u8>) -> bool {
        &&& self.land_tiles@.len() == LAND_TILE_COUNT
        &&& forall|id: int|
            0 <= id < LAND_TILE_COUNT ==> #[trigger] self.land_tiles@[id].flags == le_u32(
                data,
                land_record_offset(id),
            )
        &&& self.static_tiles@.len() == static_group_count(data.len()) * TILES_PER_GROUP
        &&& forall|id: int|
            0 <= id < self.static_tiles@.len() ==> {
                &&& #[trigger] self.static_tiles@[id].flags == le_u32(
                    data,
                    static_record_offset(id),
                )
                &&& self.static_tiles@[id].height == data[static_record_offset(id)
                    + STATIC_HEIGHT_OFFSET]
            }
    }

    /// Decodes a whole file: the 512 land groups, then as many static groups
    /// as the rest of the file holds.
    pub fn read(data: &[u8]) -> (r: Result<TileData, TileDataError>)
        ensures
            r is Ok <==> well_formed_length(data@.len()),
            r matches Ok(t) ==> t.decodes_from(data@),
            r matches Err(e) ==> layout_error(data@.len()) == Some(e),
    {
        let len = data.len();
        if len < LAND_REGION_SIZE {
            return Err(TileDataError::TruncatedData);
        }
        let mut cur = ByteCursor::new(data);
        let mut land_tiles: Vec<LandTileData> = Vec::with_capacity(LAND_TILE_COUNT);
        let mut g: usize = 0;
        while g < LAND_GROUP_COUNT
            invariant
                cur.data() == data@,
                len == data@.len(),
                len >= LAND_REGION_SIZE,
                g <= LAND_GROUP_COUNT,
                cur.pos() == g * LAND_GROUP_SIZE,
                land_tiles@.len() == g * TILES_PER_GROUP,
                forall|id: int|
                    0 <= id < land_tiles@.len() ==> #[trigger] land_tiles@[id].flags == le_u32(
                        data@,
                        land_record_offset(id),
                    ),
            decreases LAND_GROUP_COUNT - g,
        {
            cur.skip(GROUP_HEADER_SIZE);
            let mut s: usize = 0;
            while s < TILES_PER_GROUP
                invariant
                    cur.data() == data@,
                    len == data@.len(),
                    len >= LAND_REGION_SIZE,
                    g < LAND_GROUP_COUNT,
                    s <= TILES_PER_GROUP,
                    cur.pos() == g * LAND_GROUP_SIZE + GROUP_HEADER_SIZE + s * LAND_RECORD_SIZE,
                    land_tiles@.len() == g * TILES_PER_GROUP + s,
                    forall|id: int|
                        0 <= id < land_tiles@.len() ==> #[trigger] land_tiles@[id].flags
                            == le_u32(data@, land_record_offset(id)),
                decreases TILES_PER_GROUP - s,
            {
                proof {
                    lemma_fundamental_div_mod_converse(
                        (g * TILES_PER_GROUP + s) as int,
                        TILES_PER_GROUP as int,
                        g as int,
                        s as int,
                    );
                }
                let tile = LandTileData::decode(&mut cur);
                land_tiles.push(tile);
                s = s + 1;
            }
            g = g + 1;
        }

        let left = len - LAND_REGION_SIZE;
        if left % STATIC_GROUP_SIZE != 0 {
            return Err(TileDataError::MalformedLayout);
        }
        let groups = left / STATIC_GROUP_SIZE;
        proof {
            lemma_fundamental_div_mod(left as int, STATIC_GROUP_SIZE as int);
        }
        let mut static_tiles: Vec<StaticTileData> = Vec::new();
        let mut g: usize = 0;
        while g < groups
            invariant
                cur.data() == data@,
                len == data@.len(),
                len == LAND_REGION_SIZE + groups * STATIC_GROUP_SIZE,
                groups == static_group_count(len as nat),
                g <= groups,
                cur.pos() == LAND_REGION_SIZE + g * STATIC_GROUP_SIZE,
                static_tiles@.len() == g * TILES_PER_GROUP,
                forall|id: int|
                    0 <= id < static_tiles@.len() ==> {
                        &&& #[trigger] static_tiles@[id].flags == le_u32(
                            data@,
                            static_record_offset(id),
                        )
                        &&& static_tiles@[id].height == data@[static_record_offset(id)
                            + STATIC_HEIGHT_OFFSET]
                    },
            decreases groups - g,
        {
            cur.skip(GROUP_HEADER_SIZE);
            let mut s: usize = 0;
            while s < TILES_PER_GROUP
                invariant
                    cur.data() == data@,
                    len == data@.len(),
                    len == LAND_REGION_SIZE + groups * STATIC_GROUP_SIZE,
                    g < groups,
                    s <= TILES_PER_GROUP,
                    cur.pos() == LAND_REGION_SIZE + g * STATIC_GROUP_SIZE + GROUP_HEADER_SIZE + s
                        * STATIC_RECORD_SIZE,
                    static_tiles@.len() == g * TILES_PER_GROUP + s,
                    forall|id: int|
                        0 <= id < static_tiles@.len() ==> {
                            &&& #[trigger] static_tiles@[id].flags == le_u32(
                                data@,
                                static_record_offset(id),
                            )
                            &&& static_tiles@[id].height == data@[static_record_offset(id)
                                + STATIC_HEIGHT_OFFSET]
                        },
                decreases TILES_PER_GROUP - s,
            {
                proof {
                    lemma_fundamental_div_mod_converse(
                        (g * TILES_PER_GROUP + s) as int,
                        TILES_PER_GROUP as int,
                        g as int,
                        s as int,
                    );
                }
                let tile = StaticTileData::decode(&mut cur);
                static_tiles.push(tile);
                s = s + 1;
            }
            g = g + 1;
        }
        Ok(TileData { land_tiles, static_tiles })
    }

    /// The land tile with id `id`.
    pub fn get_land_tile(&self, id: u16) -> (r: &LandTileData)
        requires
            (id as int) < self.land_tiles@.len(),
        ensures
            *r == self.land_tiles@[id as int],
    {
        &self.land_tiles[id as usize]
    }

    /// The static tile with id `id`.
    pub fn get_static_tile(&self, id: u16) -> (r: &StaticTileData)
        requires
            (id as int) < self.static_tiles@.len(),
        ensures
            *r == self.static_tiles@[id as int],
    {
        &self.static_tiles[id as usize]
    }
}

/// Decoding is a function of the file's bytes: two tables that both decode
/// from the same bytes hold the same entries at every index.
pub proof fn lemma_decoding_is_deterministic(a: TileData, b: TileData, data: Seq<u8>)
    requires
        a.decodes_from(data),
        b.decodes_from(data),
    ensures
        a.land_tiles@ == b.land_tiles@,
        a.static_tiles@ == b.static_tiles@,
{
    assert forall|id: int| 0 <= id < a.land_tiles@.len() implies a.land_tiles@[id]
        == b.land_tiles@[id] by {
        assert(a.land_tiles@[id].flags == b.land_tiles@[id].flags);
    }
    assert forall|id: int| 0 <= id < a.static_tiles@.len() implies a.static_tiles@[id]
        == b.static_tiles@[id] by {
        assert(a.static_tiles@[id].flags == b.static_tiles@[id].flags);
    }
    assert(a.land_tiles@ =~= b.land_tiles@);
    assert(a.static_tiles@ =~= b.static_tiles@);
}

/// A file made of the land region and `k` whole static groups is well formed
/// and holds exactly `k` static groups, so decoding it yields 16384 land tiles
/// and `32 * k` static tiles.
pub proof fn lemma_whole_groups_decode(k: nat)
    ensures
        well_formed_length((LAND_REGION_SIZE + k * STATIC_GROUP_SIZE) as nat),
        static_group_count((LAND_REGION_SIZE + k * STATIC_GROUP_SIZE) as nat) == k,
        layout_error((LAND_REGION_SIZE + k * STATIC_GROUP_SIZE) as nat) is None,
{
    lemma_fundamental_div_mod_converse(
        (k * STATIC_GROUP_SIZE) as int,
        STATIC_GROUP_SIZE as int,
        k as int,
        0,
    );
}

/// A file made of the land region, `k` whole static groups and a part of one
/// more group is refused as malformed.
pub proof fn lemma_partial_group_is_malformed(k: nat, extra: nat)
    requires
        0 < extra < STATIC_GROUP_SIZE,
    ensures
        !well_formed_length((LAND_REGION_SIZE + k * STATIC_GROUP_SIZE + extra) as nat),
        layout_error((LAND_REGION_SIZE + k * STATIC_GROUP_SIZE + extra) as nat) == Some(
            TileDataError::MalformedLayout,
        ),
{
    lemma_fundamental_div_mod_converse(
        (k * STATIC_GROUP_SIZE + extra) as int,
        STATIC_GROUP_SIZE as int,
        k as int,
        extra as int,
    );
}

/// A file that ends inside the land region is refused as truncated.
pub proof fn lemma_short_file_is_truncated(len: nat)
    requires
        len < LAND_REGION_SIZE,
    ensures
        !well_formed_length(len),
        layout_error(len) == Some(TileDataError::TruncatedData),
{
}

} // verus!

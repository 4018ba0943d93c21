use tiledata::tiles::{
    LAND_GROUP_SIZE, LAND_RECORD_SIZE, LAND_REGION_SIZE, LAND_TILE_COUNT, STATIC_GROUP_SIZE,
    STATIC_RECORD_SIZE,
};
use tiledata::{ByteCursor, LandTileData, MulTileFlags, StaticTileData, TileData, TileDataError};

fn land_offset(id: usize) -> usize {
    (id / 32) * LAND_GROUP_SIZE + 4 + (id % 32) * LAND_RECORD_SIZE
}

fn static_offset(id: usize) -> usize {
    LAND_REGION_SIZE + (id / 32) * STATIC_GROUP_SIZE + 4 + (id % 32) * STATIC_RECORD_SIZE
}

fn put_u32(buf: &mut [u8], at: usize, v: u32) {
    buf[at..at + 4].copy_from_slice(&v.to_le_bytes());
}

/// A file with `groups` static groups whose records carry distinct values,
/// and with every reserved byte set to 0xAA so that a misplaced read shows.
fn sample_file(groups: usize) -> Vec<u8> {
    let mut buf = vec![0xAAu8; LAND_REGION_SIZE + groups * STATIC_GROUP_SIZE];
    for id in 0..LAND_TILE_COUNT {
        put_u32(&mut buf, land_offset(id), (id as u32) * 3 + 1);
    }
    for id in 0..groups * 32 {
        let at = static_offset(id);
        put_u32(&mut buf, at, 0x1000_0000 + id as u32);
        buf[at + 16] = (id % 251) as u8;
    }
    buf
}

#[test]
fn layout_sizes() {
    assert_eq!(LAND_RECORD_SIZE, 26);
    assert_eq!(LAND_GROUP_SIZE, 836);
    assert_eq!(STATIC_RECORD_SIZE, 37);
    assert_eq!(STATIC_GROUP_SIZE, 1188);
    assert_eq!(LAND_REGION_SIZE, 512 * 836);
    assert_eq!(LAND_TILE_COUNT, 16384);
}

#[test]
fn land_region_only() {
    let t = TileData::read(&vec![0u8; LAND_REGION_SIZE]).unwrap();
    assert_eq!(t.land_tiles.len(), 16384);
    assert_eq!(t.static_tiles.len(), 0);
}

#[test]
fn whole_static_groups() {
    for k in [1usize, 2, 3] {
        let t = TileData::read(&sample_file(k)).unwrap();
        assert_eq!(t.land_tiles.len(), 16384);
        assert_eq!(t.static_tiles.len(), 32 * k);
    }
}

#[test]
fn partial_static_group_is_malformed() {
    for r in [1usize, 37, 1187] {
        let mut buf = sample_file(1);
        buf.extend(std::iter::repeat(0u8).take(r));
        assert_eq!(TileData::read(&buf).unwrap_err(), TileDataError::MalformedLayout);
    }
    let buf = vec![0u8; LAND_REGION_SIZE + 5];
    assert_eq!(TileData::read(&buf).unwrap_err(), TileDataError::MalformedLayout);
}

#[test]
fn short_file_is_truncated() {
    assert_eq!(TileData::read(&[]).unwrap_err(), TileDataError::TruncatedData);
    let buf = vec![0u8; LAND_REGION_SIZE - 1];
    assert_eq!(TileData::read(&buf).unwrap_err(), TileDataError::TruncatedData);
    let buf = vec![0u8; 860];
    assert_eq!(TileData::read(&buf).unwrap_err(), TileDataError::TruncatedData);
}

#[test]
fn land_record_fields() {
    let mut rec = vec![0x55u8; 30];
    rec[0..4].copy_from_slice(&[0x78, 0x56, 0x34, 0x12]);
    let mut cur = ByteCursor::new(&rec);
    let t = LandTileData::decode(&mut cur);
    assert_eq!(t.flags, 0x1234_5678);
    assert_eq!(cur.position(), 26);
    assert_eq!(cur.remaining(), 4);
}

#[test]
fn static_record_fields() {
    let rec: Vec<u8> = (0u8..37).map(|b| b + 100).collect();
    let mut cur = ByteCursor::new(&rec);
    let t = StaticTileData::decode(&mut cur);
    assert_eq!(t.flags, u32::from_le_bytes([100, 101, 102, 103]));
    assert_eq!(t.height, 116);
    assert_eq!(cur.position(), 37);
    assert_eq!(cur.remaining(), 0);
}

#[test]
fn tables_follow_file_order() {
    let buf = sample_file(2);
    let t = TileData::read(&buf).unwrap();
    for id in 0..LAND_TILE_COUNT {
        assert_eq!(t.land_tiles[id].flags, (id as u32) * 3 + 1);
    }
    for id in 0..64 {
        assert_eq!(t.static_tiles[id].flags, 0x1000_0000 + id as u32);
        assert_eq!(t.static_tiles[id].height, (id % 251) as u8);
    }
}

#[test]
fn lookup_by_id() {
    let t = TileData::read(&sample_file(1)).unwrap();
    assert_eq!(t.get_land_tile(0).flags, 1);
    assert_eq!(t.get_land_tile(33).flags, 100);
    assert_eq!(t.get_land_tile(16383).flags, 16383 * 3 + 1);
    assert_eq!(*t.get_static_tile(0), StaticTileData { flags: 0x1000_0000, height: 0 });
    assert_eq!(*t.get_static_tile(31), StaticTileData { flags: 0x1000_001F, height: 31 });
}

#[test]
fn decoding_twice_agrees() {
    let buf = sample_file(2);
    let a = TileData::read(&buf).unwrap();
    let b = TileData::read(&buf).unwrap();
    assert_eq!(a.land_tiles, b.land_tiles);
    assert_eq!(a.static_tiles, b.static_tiles);
}

#[test]
fn impassable_record_in_first_group() {
    let mut buf = vec![0u8; LAND_REGION_SIZE];
    put_u32(&mut buf, 4 + 5 * 26, 0x0000_0040);
    let t = TileData::read(&buf).unwrap();
    for id in 0..LAND_TILE_COUNT {
        let want = if id == 5 { 0x40 } else { 0 };
        assert_eq!(t.land_tiles[id].flags, want);
    }
    assert!(t.get_land_tile(5).has_flag(MulTileFlags::Impassable));
    assert!(!t.get_land_tile(4).has_flag(MulTileFlags::Impassable));
}

#[test]
fn single_land_group() {
    let mut group = vec![0u8; 836];
    put_u32(&mut group, 4 + 5 * 26, 0x0000_0040);
    let mut cur = ByteCursor::new(&group);
    cur.skip(4);
    for slot in 0..32 {
        let t = LandTileData::decode(&mut cur);
        assert_eq!(t.flags, if slot == 5 { 0x40 } else { 0 });
    }
    assert_eq!(cur.remaining(), 0);
}

#[test]
fn cursor_reads_little_endian() {
    let bytes = [0x01u8, 0x02, 0x03, 0x04, 0x05, 0x06, 0x07];
    let mut cur = ByteCursor::new(&bytes);
    assert_eq!(cur.read_u8(), 0x01);
    assert_eq!(cur.read_u16(), 0x0302);
    assert_eq!(cur.read_u32(), 0x0706_0504);
    assert_eq!(cur.position(), 7);
}

#[test]
fn flag_bits() {
    assert_eq!(MulTileFlags::Background.bits(), 0x0000_0001);
    assert_eq!(MulTileFlags::Impassable.bits(), 0x0000_0040);
    assert_eq!(MulTileFlags::Wet.bits(), 0x0000_0080);
    assert_eq!(MulTileFlags::Surface.bits(), 0x0000_0200);
    assert_eq!(MulTileFlags::MapTile.bits(), 0x0010_0000);
    assert_eq!(MulTileFlags::StairRight.bits(), 0x8000_0000);
    assert_eq!(MulTileFlags::Roof.index(), 28);
    let s = StaticTileData { flags: 0x0000_0240, height: 3 };
    assert!(s.has_flag(MulTileFlags::Surface));
    assert!(s.has_flag(MulTileFlags::Impassable));
    assert!(!s.has_flag(MulTileFlags::Wet));
}

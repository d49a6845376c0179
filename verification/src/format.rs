//! The level-pack file format.
//!
//! A file starts with two name fields, the pack's name and its author. Each
//! level follows as a name field and the grid, two tiles to a byte, the
//! first in the high nibble. A name field is `LEVEL_NAME_LEN` bytes long; a
//! shorter name is filled up with `PADDING`, which no name can hold.

use vstd::prelude::*;
use crate::level::LevelView;
use crate::level::TileArray;
use crate::level::LEVEL_NAME_LEN;
use crate::level::LEVEL_TILES;
use crate::text::char_valid;
use crate::text::name_bytes;
use crate::text::push_char;
use crate::text::valid_char;
use crate::text::valid_name;
use crate::tile::nibble_of;
use crate::tile::tile_of;
use crate::tile::Tile;

verus! {

/// The byte that fills a name field up.
pub const PADDING: u8 = 0xFF;

/// Bytes of a grid in a file.
pub const GRID_BYTES: usize = 176;

/// Bytes of a level in a file.
pub const LEVEL_BYTES: usize = 192;

/// Bytes of the two name fields that a file starts with.
pub const HEADER_BYTES: usize = 32;

/// Most levels in a pack.
pub const MAX_LEVELS: usize = 99;

/// What a pack is: its name, its author and its levels.
pub ghost struct PackView {
    pub name: Seq<char>,
    pub author: Seq<char>,
    pub levels: Seq<LevelView>,
}

// ------------------------------------------------------------------ writing

/// The name field of a name with these bytes: its first `LEVEL_NAME_LEN`
/// bytes, filled up with `PADDING`.
pub open spec fn name_field(bytes: Seq<u8>) -> Seq<u8> {
    Seq::new(
        LEVEL_NAME_LEN as nat,
        |i: int|
            if i < bytes.len() {
                bytes[i]
            } else {
                PADDING
            },
    )
}

/// The byte that packs two tiles.
pub open spec fn tile_pair(a: Tile, b: Tile) -> u8 {
    (nibble_of(a) * 16 + nibble_of(b)) as u8
}

/// The bytes of a grid: one for each two tiles.
pub open spec fn tile_bytes(tiles: Seq<Tile>) -> Seq<u8> {
    Seq::new(tiles.len() / 2, |i: int| tile_pair(tiles[2 * i], tiles[2 * i + 1]))
}

/// The bytes of a level: its name field, then its grid.
pub open spec fn level_bytes(level: LevelView) -> Seq<u8> {
    name_field(name_bytes(level.name)) + tile_bytes(level.tiles)
}

/// The bytes of levels, one after the other.
pub open spec fn levels_bytes(levels: Seq<LevelView>) -> Seq<u8>
    decreases levels.len(),
{
    if levels.len() == 0 {
        Seq::empty()
    } else {
        levels_bytes(levels.drop_last()) + level_bytes(levels.last())
    }
}

/// The bytes of a pack.
pub open spec fn pack_bytes(pack: PackView) -> Seq<u8> {
    name_field(name_bytes(pack.name)) + name_field(name_bytes(pack.author)) + levels_bytes(pack.levels)
}

// ------------------------------------------------------------------ reading

/// Whether a byte stands for a character that a name may hold.
pub open spec fn valid_byte(b: u8) -> bool {
    valid_char(b as char)
}

/// How many bytes at the start of `bytes` stand for valid characters.
pub open spec fn valid_run(bytes: Seq<u8>) -> nat
    decreases bytes.len(),
{
    if bytes.len() == 0 || !valid_byte(bytes[0]) {
        0
    } else {
        1 + valid_run(bytes.drop_first())
    }
}

/// The name in a name field: its characters up to the first byte that
/// stands for no valid character.
pub open spec fn field_name(field: Seq<u8>) -> Seq<char> {
    Seq::new(valid_run(field), |i: int| field[i] as char)
}

/// The grid in the bytes of a grid. Each byte gives two tiles, the high
/// nibble first.
pub open spec fn grid_of_bytes(bytes: Seq<u8>) -> Seq<Tile> {
    Seq::new(
        LEVEL_TILES as nat,
        |k: int|
            if k % 2 == 0 {
                tile_of(bytes[k / 2] / 16)
            } else {
                tile_of(bytes[k / 2] % 16)
            },
    )
}

/// How many whole levels a file of `len` bytes holds.
pub open spec fn levels_in(len: nat) -> nat {
    if len <= HEADER_BYTES {
        0
    } else {
        ((len - HEADER_BYTES) / LEVEL_BYTES as int) as nat
    }
}

/// Whether a file is a pack: it is longer than its two name fields and
/// holds from one to `MAX_LEVELS` whole levels.
pub open spec fn pack_accepted(data: Seq<u8>) -> bool {
    data.len() > HEADER_BYTES && 1 <= levels_in(data.len()) <= MAX_LEVELS
}

/// Where level `k` starts in a file.
pub open spec fn level_start(k: int) -> int {
    HEADER_BYTES + k * LEVEL_BYTES
}

/// Level `k` of a file.
pub open spec fn decoded_level(data: Seq<u8>, k: int) -> LevelView {
    LevelView {
        name: field_name(data.subrange(level_start(k), level_start(k) + LEVEL_NAME_LEN)),
        tiles: grid_of_bytes(data.subrange(level_start(k) + LEVEL_NAME_LEN, level_start(k) + LEVEL_BYTES)),
    }
}

/// The pack in a file. Bytes behind the last whole level are not read.
pub open spec fn decoded_pack(data: Seq<u8>) -> PackView {
    PackView {
        name: field_name(data.subrange(0, LEVEL_NAME_LEN as int)),
        author: field_name(data.subrange(LEVEL_NAME_LEN as int, HEADER_BYTES as int)),
        levels: Seq::new(levels_in(data.len()), |k: int| decoded_level(data, k)),
    }
}

/// Whether a pack can be written and read back: it has from one to
/// `MAX_LEVELS` levels, each with a whole grid, and every name is valid.
pub open spec fn pack_storable(pack: PackView) -> bool {
    &&& valid_name(pack.name)
    &&& valid_name(pack.author)
    &&& 1 <= pack.levels.len() <= MAX_LEVELS
    &&& forall|k: int|
        0 <= k < pack.levels.len() ==> valid_name((#[trigger] pack.levels[k]).name) && pack.levels[k].tiles.len()
            == LEVEL_TILES
}

// ------------------------------------------------------------------- lemmas

/// A run of valid bytes that ends at `n` has length `n`.
pub proof fn lemma_valid_run(bytes: Seq<u8>, n: int)
    requires
        0 <= n <= bytes.len(),
        forall|j: int| 0 <= j < n ==> valid_byte(#[trigger] bytes[j]),
        n < bytes.len() ==> !valid_byte(bytes[n]),
    ensures
        valid_run(bytes) == n,
    decreases n,
{
    if n > 0 {
        let rest = bytes.drop_first();
        assert forall|j: int| 0 <= j < n - 1 implies valid_byte(#[trigger] rest[j]) by {
            assert(rest[j] == bytes[j + 1]);
        }
        lemma_valid_run(rest, n - 1);
    }
}

/// A valid character is its own byte, and that byte is no padding.
pub proof fn lemma_valid_char_byte(c: char)
    requires
        valid_char(c),
    ensures
        '\0' <= c <= '\u{7f}',
        (c as u8) as char == c,
        c as u8 != PADDING,
        valid_byte(c as u8),
{
}

/// The padding byte stands for no valid character.
pub proof fn lemma_padding_invalid()
    ensures
        !valid_byte(PADDING),
{
}

/// The name field of a valid name reads back as that name.
pub proof fn lemma_name_round_trip(name: Seq<char>)
    requires
        valid_name(name),
    ensures
        field_name(name_field(name_bytes(name))) == name,
{
    assert(vstd::utf8::is_ascii_chars(name)) by {
        assert forall|i: int| 0 <= i < name.len() implies '\0' <= #[trigger] name[i] <= '\u{7f}' by {
            lemma_valid_char_byte(name[i]);
        }
    }
    vstd::utf8::is_ascii_chars_encode_utf8(name);
    let bytes = name_bytes(name);
    let field = name_field(bytes);
    assert forall|j: int| 0 <= j < name.len() implies valid_byte(#[trigger] field[j]) && field[j] as char
        == name[j] by {
        assert(bytes[j] == name[j] as u8);
        lemma_valid_char_byte(name[j]);
    }
    lemma_padding_invalid();
    lemma_valid_run(field, name.len() as int);
    assert(field_name(field) =~= name);
}

/// The bytes of a grid read back as that grid.
pub proof fn lemma_grid_round_trip(tiles: Seq<Tile>)
    requires
        tiles.len() == LEVEL_TILES,
    ensures
        tile_bytes(tiles).len() == GRID_BYTES,
        grid_of_bytes(tile_bytes(tiles)) == tiles,
{
    let bytes = tile_bytes(tiles);
    let back = grid_of_bytes(bytes);
    assert forall|k: int| 0 <= k < LEVEL_TILES implies back[k] == tiles[k] by {
        let i = k / 2;
        let a = tiles[2 * i];
        let b = tiles[2 * i + 1];
        crate::tile::law_nibble_round_trip(a);
        crate::tile::law_nibble_round_trip(b);
        assert(bytes[i] == tile_pair(a, b));
        assert(tile_pair(a, b) / 16 == nibble_of(a));
        assert(tile_pair(a, b) % 16 == nibble_of(b));
    }
    assert(back =~= tiles);
}

/// Levels with whole grids take `LEVEL_BYTES` bytes each, and each level's
/// bytes stand at its place.
pub proof fn lemma_levels_bytes(levels: Seq<LevelView>, k: int)
    requires
        forall|j: int| 0 <= j < levels.len() ==> (#[trigger] levels[j]).tiles.len() == LEVEL_TILES,
        0 <= k < levels.len(),
    ensures
        levels_bytes(levels).len() == levels.len() * LEVEL_BYTES,
        levels_bytes(levels).subrange(k * LEVEL_BYTES, k * LEVEL_BYTES + LEVEL_BYTES) == level_bytes(levels[k]),
    decreases levels.len(),
{
    let front = levels.drop_last();
    let last = level_bytes(levels.last());
    assert(last.len() == LEVEL_BYTES);
    if front.len() > 0 {
        lemma_levels_bytes(front, if k < front.len() { k } else { 0 });
    }
    assert(levels_bytes(front).len() == front.len() * LEVEL_BYTES);
    let all = levels_bytes(levels);
    assert(all == levels_bytes(front) + last);
    if k == levels.len() - 1 {
        assert(all.subrange(k * LEVEL_BYTES, k * LEVEL_BYTES + LEVEL_BYTES) =~= last);
    } else {
        assert(front[k] == levels[k]);
        assert(all.subrange(k * LEVEL_BYTES, k * LEVEL_BYTES + LEVEL_BYTES) =~= levels_bytes(front).subrange(
            k * LEVEL_BYTES,
            k * LEVEL_BYTES + LEVEL_BYTES,
        ));
    }
}

/// A pack that is written and read back is the same pack: the same names
/// and the same grids.
pub proof fn law_pack_round_trip(pack: PackView)
    requires
        pack_storable(pack),
    ensures
        pack_accepted(pack_bytes(pack)),
        pack_bytes(pack).len() == HEADER_BYTES + pack.levels.len() * LEVEL_BYTES,
        decoded_pack(pack_bytes(pack)) == pack,
{
    let data = pack_bytes(pack);
    let n = pack.levels.len();
    lemma_levels_bytes(pack.levels, 0);
    assert(data.len() == HEADER_BYTES + n * LEVEL_BYTES);
    assert(levels_in(data.len()) == n);
    let back = decoded_pack(data);
    assert(data.subrange(0, LEVEL_NAME_LEN as int) =~= name_field(name_bytes(pack.name)));
    assert(data.subrange(LEVEL_NAME_LEN as int, HEADER_BYTES as int) =~= name_field(name_bytes(pack.author)));
    lemma_name_round_trip(pack.name);
    lemma_name_round_trip(pack.author);
    assert forall|k: int| 0 <= k < n implies #[trigger] back.levels[k] == pack.levels[k] by {
        lemma_levels_bytes(pack.levels, k);
        let level = pack.levels[k];
        let chunk = level_bytes(level);
        lemma_grid_round_trip(level.tiles);
        assert(chunk.len() == LEVEL_BYTES);
        assert(chunk.subrange(LEVEL_NAME_LEN as int, LEVEL_BYTES as int) =~= tile_bytes(level.tiles));
        assert(data.subrange(level_start(k), level_start(k) + LEVEL_BYTES) =~= chunk);
        assert(data.subrange(level_start(k) + LEVEL_NAME_LEN, level_start(k) + LEVEL_BYTES) =~= chunk.subrange(
            LEVEL_NAME_LEN as int,
            LEVEL_BYTES as int,
        ));
        assert(data.subrange(level_start(k), level_start(k) + LEVEL_NAME_LEN) =~= name_field(
            name_bytes(level.name),
        ));
        assert(data.subrange(level_start(k) + LEVEL_NAME_LEN, level_start(k) + LEVEL_BYTES) =~= tile_bytes(
            level.tiles,
        ));
        lemma_name_round_trip(level.name);
    }
    assert(back.levels =~= pack.levels);
}

// --------------------------------------------------------------- the coders

/// Writes the name field of a name behind `data`.
pub fn write_name(data: &mut Vec<u8>, name: &String)
    ensures
        final(data)@ == old(data)@ + name_field(name_bytes(name@)),
{
    let bytes = name.as_str().as_bytes();
    let mut i: usize = 0;
    while i < LEVEL_NAME_LEN
        invariant
            i <= LEVEL_NAME_LEN,
            bytes@ == name_bytes(name@),
            data@ == old(data)@ + name_field(name_bytes(name@)).take(i as int),
        decreases LEVEL_NAME_LEN - i,
    {
        let b = if i < bytes.len() {
            bytes[i]
        } else {
            PADDING
        };
        data.push(b);
        assert(data@ =~= old(data)@ + name_field(name_bytes(name@)).take(i + 1));
        i += 1;
    }
    assert(name_field(name_bytes(name@)).take(i as int) =~= name_field(name_bytes(name@)));
}

/// Writes the bytes of a grid behind `data`.
pub fn write_tiles(data: &mut Vec<u8>, tiles: &TileArray)
    ensures
        final(data)@ == old(data)@ + tile_bytes(tiles@),
{
    let mut i: usize = 0;
    while i < GRID_BYTES
        invariant
            i <= GRID_BYTES,
            tiles@.len() == LEVEL_TILES,
            data@ == old(data)@ + tile_bytes(tiles@).take(i as int),
        decreases GRID_BYTES - i,
    {
        let a = tiles[2 * i].to_nibble();
        let b = tiles[2 * i + 1].to_nibble();
        data.push(a * 16 + b);
        assert(data@ =~= old(data)@ + tile_bytes(tiles@).take(i + 1));
        i += 1;
    }
    assert(tile_bytes(tiles@).take(i as int) =~= tile_bytes(tiles@));
}

/// Reads the name in the name field that starts at `start`.
pub fn read_name(data: &Vec<u8>, start: usize) -> (name: String)
    requires
        start + LEVEL_NAME_LEN <= data@.len(),
    ensures
        name@ == field_name(data@.subrange(start as int, start + LEVEL_NAME_LEN)),
{
    let ghost field = data@.subrange(start as int, start + LEVEL_NAME_LEN);
    let len = data.len();
    let mut name = String::new();
    let mut i: usize = 0;
    while i < LEVEL_NAME_LEN
        invariant
            i <= LEVEL_NAME_LEN,
            start + LEVEL_NAME_LEN <= data@.len() == len,
            field == data@.subrange(start as int, start + LEVEL_NAME_LEN),
            forall|j: int| 0 <= j < i ==> valid_byte(#[trigger] field[j]),
            name@ == Seq::new(i as nat, |j: int| field[j] as char),
        decreases LEVEL_NAME_LEN - i,
    {
        let b = data[start + i];
        assert(b == field[i as int]);
        let c = b as char;
        if !char_valid(c) {
            proof {
                lemma_valid_run(field, i as int);
            }
            return name;
        }
        push_char(&mut name, c);
        assert(name@ =~= Seq::new((i + 1) as nat, |j: int| field[j] as char));
        i += 1;
    }
    proof {
        lemma_valid_run(field, i as int);
    }
    name
}

/// Reads the grid whose bytes start at `start`.
pub fn read_tiles(data: &Vec<u8>, start: usize) -> (tiles: TileArray)
    requires
        start + GRID_BYTES <= data@.len(),
    ensures
        tiles@ == grid_of_bytes(data@.subrange(start as int, start + GRID_BYTES)),
{
    let ghost bytes = data@.subrange(start as int, start + GRID_BYTES);
    let len = data.len();
    let mut tiles: TileArray = [Tile::Air; LEVEL_TILES];
    let mut i: usize = 0;
    while i < GRID_BYTES
        invariant
            i <= GRID_BYTES,
            start + GRID_BYTES <= data@.len() == len,
            bytes == data@.subrange(start as int, start + GRID_BYTES),
            tiles@.len() == LEVEL_TILES,
            forall|k: int| 0 <= k < 2 * i ==> tiles@[k] == grid_of_bytes(bytes)[k],
        decreases GRID_BYTES - i,
    {
        let b = data[start + i];
        assert(b == bytes[i as int]);
        let high = match Tile::from_nibble(b / 16) {
            Some(t) => t,
            None => Tile::Air,
        };
        let low = match Tile::from_nibble(b % 16) {
            Some(t) => t,
            None => Tile::Air,
        };
        tiles[2 * i] = high;
        tiles[2 * i + 1] = low;
        i += 1;
    }
    assert(tiles@ =~= grid_of_bytes(bytes));
    tiles
}

} // verus!

use vstd::prelude::*;

verus! {

use crate::cpu::{bit_weight, bit_weight_of};
use crate::memory_behavior::Memory;
use crate::vram::VideoRam;

/// Screen Width
pub const SCREEN_W: usize = 160;

/// Screen Height
pub const SCREEN_H: usize = 144;

/// One on-screen pixel: a 2-bit shade.
#[derive(Copy, Clone, PartialEq, Eq, Structural, Debug)]
pub enum Pixel {
    Black,
    DarkGrey,
    LightGrey,
    White,
}

impl Pixel {
    /// The shade a 2-bit colour value denotes.
    pub open spec fn spec_from_value(value: u8) -> Pixel {
        if value == 0 {
            Pixel::Black
        } else if value == 1 {
            Pixel::DarkGrey
        } else if value == 2 {
            Pixel::LightGrey
        } else {
            Pixel::White
        }
    }

    /// The pixel at a column of a tile line: the high-plane bit doubled plus
    /// the low-plane bit, both taken at the bit position the column selects,
    /// leftmost column at the top bit.
    pub open spec fn spec_from_bytes(low_value: u8, high_value: u8, index: int) -> Pixel {
        let w = bit_weight((7 - index) as u8);
        Pixel::spec_from_value((((high_value / w) % 2) * 2 + ((low_value / w) % 2)) as u8)
    }

    /// The three RGB components of the shade.
    pub open spec fn spec_to_rgb(self) -> Seq<u8> {
        match self {
            Pixel::Black => seq![0x00u8, 0x20u8, 0x00u8],
            Pixel::DarkGrey => seq![0x20u8, 0x40u8, 0x20u8],
            Pixel::LightGrey => seq![0x40u8, 0x80u8, 0x40u8],
            Pixel::White => seq![0xeeu8, 0xffu8, 0xeeu8],
        }
    }

    /// The shade of a 2-bit colour value.
    pub fn from_value(value: u8) -> (r: Pixel)
        requires
            value < 4,
        ensures
            r == Pixel::spec_from_value(value),
    {
        if value == 0 {
            Pixel::Black
        } else if value == 1 {
            Pixel::DarkGrey
        } else if value == 2 {
            Pixel::LightGrey
        } else {
            Pixel::White
        }
    }

    /// Helper function to convert a line's two plane bytes plus a column
    /// index into a Pixel.
    pub fn from_bytes(low_value: u8, high_value: u8, index: usize) -> (r: Pixel)
        requires
            index < 8,
        ensures
            r == Pixel::spec_from_bytes(low_value, high_value, index as int),
    {
        let w = bit_weight_of((7 - index) as u8);
        let low_value_bit = (low_value / w) % 2;
        let high_value_bit = (high_value / w) % 2;
        Pixel::from_value(high_value_bit * 2 + low_value_bit)
    }

    /// The RGB rendering of the shade.
    pub fn to_rgb(self) -> (r: [u8; 3])
        ensures
            r@ == self.spec_to_rgb(),
    {
        match self {
            Pixel::Black => [0x00, 0x20, 0x00],
            Pixel::DarkGrey => [0x20, 0x40, 0x20],
            Pixel::LightGrey => [0x40, 0x80, 0x40],
            Pixel::White => [0xee, 0xff, 0xee],
        }
    }
}

/// Which half of the tile-data area background and window tiles index into.
#[derive(Copy, Clone, Debug)]
pub enum BgWindowDataArea {
    // Tiles indexed from the start of the tile data
    Low,
    // Tiles indexed from the second half of the tile data
    High,
}

/// Which of the two tile maps is in use.
#[derive(Copy, Clone, Debug)]
pub enum TileMap {
    // 0x9800 to 0x9BFF
    One,
    // 0x9C00 to 0x9FFF
    Two,
}

/// The tile-index offset a data-area choice applies.
pub open spec fn spec_data_area_offset(data_area: BgWindowDataArea) -> int {
    match data_area {
        BgWindowDataArea::High => 128,
        BgWindowDataArea::Low => 0,
    }
}

/// Decode the data-area choice from bit 4 of the LCD control register.
pub fn background_and_windows_tiles(register: u8) -> (r: BgWindowDataArea)
    ensures
        r == (if register / 16 % 2 == 1 {
            BgWindowDataArea::High
        } else {
            BgWindowDataArea::Low
        }),
{
    if register / 16 % 2 == 1 {
        BgWindowDataArea::High
    } else {
        BgWindowDataArea::Low
    }
}

/// Decode the active tile map from bit 3 of the LCD control register.
pub fn background_tile_map_area(register: u8) -> (r: TileMap)
    ensures
        r == (if register / 8 % 2 == 0 {
            TileMap::One
        } else {
            TileMap::Two
        }),
{
    if register / 8 % 2 == 0 {
        TileMap::One
    } else {
        TileMap::Two
    }
}

/// Convert a tile-map pixel row and column - scrolling already applied -
/// into the index of the owning tile in a 32 by 32 tile map.
pub fn convert_pixel_to_tile_coord(tilemap_pixel_row: usize, tilemap_pixel_col: usize) -> (r:
    usize)
    requires
        tilemap_pixel_row < 256,
        tilemap_pixel_col < 256,
    ensures
        r == tilemap_pixel_row as int / 8 * 32 + tilemap_pixel_col as int / 8,
        r < 1024,
{
    tilemap_pixel_row / 8 * 32 + tilemap_pixel_col / 8
}

/// The flat buffer position of one colour component of one screen pixel.
pub open spec fn pixel_index(row: int, col: int, k: int) -> int {
    (row * 160 + col) * 3 + k
}

/// The shade one screen position shows: the scrolled position wraps, picks
/// its tile out of the active map, offset into the chosen data area, and the
/// pixel within that tile.
pub open spec fn background_pixel(
    vram: VideoRam,
    tile_map: TileMap,
    data_area: BgWindowDataArea,
    scy: u8,
    scx: u8,
    row: int,
    col: int,
) -> Pixel {
    let tilemap_pixel_row = (row + scy) % 255;
    let tilemap_pixel_col = (col + scx) % 255;
    let tilemap_index = tilemap_pixel_row / 8 * 32 + tilemap_pixel_col / 8;
    let tile_index = (match tile_map {
        TileMap::One => vram.tile_map_1@[tilemap_index],
        TileMap::Two => vram.tile_map_2@[tilemap_index],
    }) + spec_data_area_offset(data_area);
    let tile = vram.tile_data@[tile_index];
    Pixel::spec_from_bytes(
        tile.lower_bytes@[tilemap_pixel_row % 8],
        tile.higher_bytes@[tilemap_pixel_row % 8],
        tilemap_pixel_col % 8,
    )
}

/// Read the background tile map and render it into an RGB buffer, one
/// 160-pixel row of the 144 screen rows at a time.
pub fn read_background(
    vram: &VideoRam,
    tile_map: TileMap,
    data_area: BgWindowDataArea,
    scy: u8,
    scx: u8,
) -> (r: Vec<u8>)
    requires
        vram.wf(),
    ensures
        r@.len() == 144 * 160 * 3,
        forall|row: int, col: int, k: int|
            0 <= row < 144 && 0 <= col < 160 && 0 <= k < 3 ==> #[trigger] r@[pixel_index(
                row,
                col,
                k,
            )] == background_pixel(*vram, tile_map, data_area, scy, scx, row, col).spec_to_rgb()[k],
{
    let offset_index: usize = match data_area {
        BgWindowDataArea::High => 128,
        BgWindowDataArea::Low => 0,
    };
    let mut buffer: Vec<u8> = Vec::new();
    let mut pixel_row: usize = 0;
    while pixel_row < SCREEN_H
        invariant
            vram.wf(),
            pixel_row <= 144,
            buffer@.len() == pixel_row * 480,
            forall|row: int, col: int, k: int|
                0 <= row < pixel_row && 0 <= col < 160 && 0 <= k < 3 ==> #[trigger] buffer@[
                    pixel_index(row, col, k)
                ] == background_pixel(*vram, tile_map, data_area, scy, scx, row, col).spec_to_rgb()[
                    k
                ],
            offset_index == spec_data_area_offset(data_area),
        decreases 144 - pixel_row,
    {
        let mut pixel_col: usize = 0;
        while pixel_col < SCREEN_W
            invariant
                vram.wf(),
                pixel_row < 144,
                pixel_col <= 160,
                buffer@.len() == pixel_row * 480 + pixel_col * 3,
                forall|row: int, col: int, k: int|
                    0 <= row < pixel_row && 0 <= col < 160 && 0 <= k < 3 ==> #[trigger] buffer@[
                        pixel_index(row, col, k)
                    ] == background_pixel(*vram, tile_map, data_area, scy, scx, row, col)
                        .spec_to_rgb()[k],
                forall|col: int, k: int|
                    0 <= col < pixel_col && 0 <= k < 3 ==> #[trigger] buffer@[pixel_index(
                        pixel_row as int,
                        col,
                        k,
                    )] == background_pixel(
                        *vram,
                        tile_map,
                        data_area,
                        scy,
                        scx,
                        pixel_row as int,
                        col,
                    ).spec_to_rgb()[k],
                offset_index == spec_data_area_offset(data_area),
            decreases 160 - pixel_col,
        {
            // make the position wrap when pushed out of range by the scroll
            let tilemap_pixel_row = (pixel_row + scy as usize) % 255;
            let tilemap_pixel_col = (pixel_col + scx as usize) % 255;
            // Get the matching tile ...
            let tilemap_index = convert_pixel_to_tile_coord(tilemap_pixel_row, tilemap_pixel_col);
            let tile_index = (match tile_map {
                TileMap::One => vram.tile_map_1[tilemap_index],
                TileMap::Two => vram.tile_map_2[tilemap_index],
            }) as usize + offset_index;
            let tile = &vram.tile_data[tile_index];
            // ... and the pixel within this tile.
            let tile_pixel_row = tilemap_pixel_row % 8;
            let tile_pixel_col = tilemap_pixel_col % 8;
            let pixel = Pixel::from_bytes(
                tile.lower_bytes[tile_pixel_row],
                tile.higher_bytes[tile_pixel_row],
                tile_pixel_col,
            );
            let rgb = pixel.to_rgb();
            buffer.push(rgb[0]);
            buffer.push(rgb[1]);
            buffer.push(rgb[2]);
            pixel_col += 1;
        }
        pixel_row += 1;
    }
    buffer
}

} // verus!

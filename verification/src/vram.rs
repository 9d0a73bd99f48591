use vstd::prelude::*;

verus! {

use crate::memory_behavior::{zero_buffer, Memory};
use vstd::arithmetic::div_mod::lemma_fundamental_div_mod;

/// Number of tiles in the tile-data area: 0x8000 to 0x97FF is 0x1800 bytes,
/// 16 bytes per tile.
pub const TILE_NUMBER: usize = 384;

/// Each tile contains 8*8 pixels, each stored on 2 bits, so 2 bytes make a
/// line.  The two bits of a pixel are split over two parallel byte planes:
/// within the 16 bytes of a tile, the byte at an even offset is the low
/// plane of one line and the byte at the following odd offset the high plane
/// of the same line.  A pixel's colour is higher bit times 2 plus lower bit.
#[derive(Debug, Clone)]
pub struct Tile {
    pub higher_bytes: Vec<u8>,
    pub lower_bytes: Vec<u8>,
}

impl Tile {
    /// A tile holds eight lines in each plane.
    pub open spec fn wf(&self) -> bool {
        self.higher_bytes.len() == 8 && self.lower_bytes.len() == 8
    }
}

impl Default for Tile {
    fn default() -> (r: Self)
        ensures
            r.wf(),
            r.higher_bytes@ == Seq::new(8, |i: int| 0u8),
            r.lower_bytes@ == Seq::new(8, |i: int| 0u8),
    {
        Tile { higher_bytes: zero_buffer(8), lower_bytes: zero_buffer(8) }
    }
}

impl Tile {
    /// Write a whole line of the tile: the high byte of `value` becomes the
    /// line's low-plane byte and the low byte its high-plane byte.
    pub fn write_line(&mut self, line_offset: usize, value: u16)
        requires
            old(self).wf(),
            line_offset < 8,
        ensures
            final(self).wf(),
            final(self).lower_bytes@ == old(self).lower_bytes@.update(
                line_offset as int,
                (value / 256) as u8,
            ),
            final(self).higher_bytes@ == old(self).higher_bytes@.update(
                line_offset as int,
                (value % 256) as u8,
            ),
    {
        self.lower_bytes[line_offset] = (value / 256) as u8;
        self.higher_bytes[line_offset] = (value % 256) as u8;
    }

    /// Overwrite the high-plane byte of one line.
    pub fn write_higher_byte(&mut self, line_offset: usize, value: u8)
        requires
            old(self).wf(),
            line_offset < 8,
        ensures
            final(self).wf(),
            final(self).higher_bytes@ == old(self).higher_bytes@.update(line_offset as int, value),
            final(self).lower_bytes == old(self).lower_bytes,
    {
        self.higher_bytes[line_offset] = value;
    }

    /// Overwrite the low-plane byte of one line.
    pub fn write_lower_byte(&mut self, line_offset: usize, value: u8)
        requires
            old(self).wf(),
            line_offset < 8,
        ensures
            final(self).wf(),
            final(self).lower_bytes@ == old(self).lower_bytes@.update(line_offset as int, value),
            final(self).higher_bytes == old(self).higher_bytes,
    {
        self.lower_bytes[line_offset] = value;
    }
}

/// Video RAM, kept in the structured form the renderer needs: decoded tiles
/// and the two 32 by 32 tile maps.  As a region of the bus it still answers
/// byte accesses over 0x8000 to 0x9FFF; `contents()` is that byte view.
#[derive(Debug, Clone)]
pub struct VideoRam {
    /// 0x8000 -> 0x97FF
    pub tile_data: Vec<Tile>,
    /// 0x9800 -> 0x9BFF
    pub tile_map_1: Vec<u8>,
    /// 0x9C00 -> 0x9FFF
    pub tile_map_2: Vec<u8>,
}

impl VideoRam {
    /// The byte a region-local offset denotes: tile data first, split into
    /// planes two bytes per line, then the two tile maps.
    pub open spec fn byte_at(self, o: int) -> u8 {
        if o < 0x1800 {
            let t = self.tile_data@[o / 16];
            if (o % 16) % 2 == 0 {
                t.lower_bytes@[(o % 16) / 2]
            } else {
                t.higher_bytes@[(o % 16) / 2]
            }
        } else if o < 0x1C00 {
            self.tile_map_1@[o - 0x1800]
        } else {
            self.tile_map_2@[o - 0x1C00]
        }
    }

    /// Return the tile owning a tile-data address, plus the line offset
    /// inside the tile that the address falls on.
    pub fn get_tile_with_line_offset(&mut self, address: u16) -> (r: (&mut Tile, usize))
        requires
            old(self).wf(),
            0x8000 <= address < 0x9800,
        ensures
            *r.0 == old(self).tile_data@[(address - 0x8000) / 16],
            r.1 == ((address - 0x8000) % 16) / 2,
            final(self).tile_data@ == old(self).tile_data@.update(
                (address - 0x8000) / 16,
                *final(r.0),
            ),
            final(self).tile_map_1 == old(self).tile_map_1,
            final(self).tile_map_2 == old(self).tile_map_2,
    {
        let real_offset = (address - 0x8000) as usize;
        let quotient = real_offset / 16;
        let remain = (real_offset % 16) / 2;
        (&mut self.tile_data[quotient], remain)
    }
}

impl Default for VideoRam {
    fn default() -> (r: Self)
        ensures
            r.wf(),
            r.contents() == Seq::new(Self::spec_size(), |i: int| 0u8),
    {
        let mut tiles: Vec<Tile> = Vec::new();
        let mut i: usize = 0;
        while i < TILE_NUMBER
            invariant
                i == tiles.len() <= TILE_NUMBER,
                forall|j: int|
                    0 <= j < i ==> (#[trigger] tiles@[j]).wf() && tiles@[j].lower_bytes@
                        =~= Seq::new(8, |k: int| 0u8) && tiles@[j].higher_bytes@ =~= Seq::new(
                        8,
                        |k: int| 0u8,
                    ),
            decreases TILE_NUMBER - i,
        {
            tiles.push(Tile::default());
            i += 1;
        }
        let r = VideoRam {
            tile_data: tiles,
            tile_map_1: zero_buffer(1024),
            tile_map_2: zero_buffer(1024),
        };
        proof {
            assert(r.contents() =~= Seq::new(Self::spec_size(), |i: int| 0u8));
        }
        r
    }
}

/// Two distinct local offsets of the tile-data area cannot select the same
/// tile, the same line and the same plane.
proof fn lemma_tile_offset_unique(j: int, o: int)
    requires
        0 <= j < 0x1800,
        0 <= o < 0x1800,
        j / 16 == o / 16,
        (j % 16) / 2 == (o % 16) / 2,
        (j % 16) % 2 == (o % 16) % 2,
    ensures
        j == o,
{
    lemma_fundamental_div_mod(j, 16);
    lemma_fundamental_div_mod(o, 16);
    lemma_fundamental_div_mod(j % 16, 2);
    lemma_fundamental_div_mod(o % 16, 2);
}

impl Memory for VideoRam {
    open spec fn spec_start() -> u16 {
        0x8000
    }

    open spec fn spec_size() -> nat {
        0x2000
    }

    open spec fn contents(&self) -> Seq<u8> {
        Seq::new(0x2000, |o: int| self.byte_at(o))
    }

    open spec fn wf(&self) -> bool {
        &&& self.tile_data.len() == TILE_NUMBER
        &&& forall|i: int| 0 <= i < TILE_NUMBER ==> (#[trigger] self.tile_data@[i]).wf()
        &&& self.tile_map_1.len() == 1024
        &&& self.tile_map_2.len() == 1024
    }

    fn start() -> u16 {
        0x8000
    }

    fn end() -> u16 {
        0x9FFF
    }

    fn local_address(address: u16) -> u16 {
        address - 0x8000
    }

    fn read_byte(&self, address: u16) -> u8 {
        let local = address - 0x8000;
        if local < 0x1800 {
            let within = (local % 16) as usize;
            let tile = &self.tile_data[(local / 16) as usize];
            if within % 2 == 0 {
                tile.lower_bytes[within / 2]
            } else {
                tile.higher_bytes[within / 2]
            }
        } else if local < 0x1C00 {
            self.tile_map_1[(local - 0x1800) as usize]
        } else {
            self.tile_map_2[(local - 0x1C00) as usize]
        }
    }

    fn write_byte(&mut self, address: u16, content: u8) {
        let local = address - 0x8000;
        if local < 0x1800 {
            let within = (local % 16) as usize;
            let (tile, line) = self.get_tile_with_line_offset(address);
            if within % 2 == 0 {
                tile.write_lower_byte(line, content);
            } else {
                tile.write_higher_byte(line, content);
            }
            proof {
                assert forall|j: int| 0 <= j < 0x2000 implies self.byte_at(j) == old(
                    self,
                ).contents().update(local as int, content)[j] by {
                    if 0 <= j < 0x1800 && j != local && j / 16 == local as int / 16 && (j % 16) / 2
                        == (local as int % 16) / 2 && (j % 16) % 2 == (local as int % 16) % 2 {
                        lemma_tile_offset_unique(j, local as int);
                    }
                }
                assert(self.contents() =~= old(self).contents().update(local as int, content));
            }
        } else if local < 0x1C00 {
            let i = (local - 0x1800) as usize;
            self.tile_map_1[i] = content;
            proof {
                assert(self.contents() =~= old(self).contents().update(local as int, content));
            }
        } else {
            let i = (local - 0x1C00) as usize;
            self.tile_map_2[i] = content;
            proof {
                assert(self.contents() =~= old(self).contents().update(local as int, content));
            }
        }
    }

    fn read_word(&self, address: u16) -> u16 {
        let low = self.read_byte(address);
        let high = self.read_byte(address + 1);
        (low as u16) + (high as u16) * 256
    }

    fn write_word(&mut self, address: u16, content: u16) {
        self.write_byte(address, (content % 256) as u8);
        self.write_byte(address + 1, (content / 256) as u8);
    }
}

} // verus!

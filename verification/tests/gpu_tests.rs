use gb_core::gpu::{
    background_and_windows_tiles, background_tile_map_area, read_background, BgWindowDataArea,
    Pixel, TileMap,
};
use gb_core::memory_behavior::Memory;
use gb_core::vram::VideoRam;

#[test]
fn test_black() {
    let pixel = Pixel::from_bytes(0x3C, 0x7E, 7);
    assert_eq!(pixel, Pixel::Black);
}

#[test]
fn test_white() {
    let pixel = Pixel::from_bytes(0x3C, 0x7E, 5);
    assert_eq!(pixel, Pixel::White);
}

#[test]
fn test_light_grey() {
    let pixel = Pixel::from_bytes(0x3C, 0x7E, 6);
    assert_eq!(pixel, Pixel::LightGrey);
}

#[test]
fn convert_pixel_to_tile_coord() {
    assert_eq!(gb_core::gpu::convert_pixel_to_tile_coord(0, 0), 0);
    assert_eq!(gb_core::gpu::convert_pixel_to_tile_coord(0, 32), 4);
    assert_eq!(gb_core::gpu::convert_pixel_to_tile_coord(9, 0), 32);
    assert_eq!(gb_core::gpu::convert_pixel_to_tile_coord(9, 8), 33);
    assert_eq!(gb_core::gpu::convert_pixel_to_tile_coord(255, 255), 1023);
}

#[test]
fn lcd_control_bits() {
    assert!(matches!(background_tile_map_area(0x00), TileMap::One));
    assert!(matches!(background_tile_map_area(0x08), TileMap::Two));
    assert!(matches!(background_and_windows_tiles(0x00), BgWindowDataArea::Low));
    assert!(matches!(background_and_windows_tiles(0x10), BgWindowDataArea::High));
}

#[test]
fn pixel_shades_to_rgb() {
    assert_eq!(Pixel::Black.to_rgb(), [0x00, 0x20, 0x00]);
    assert_eq!(Pixel::White.to_rgb(), [0xee, 0xff, 0xee]);
}

#[test]
fn read_background_renders_the_top_left_tile() {
    let mut vram = VideoRam::default();
    // tile 1: its top line entirely white (both plane bits set)
    vram.write_byte(0x8010, 0xFF);
    vram.write_byte(0x8011, 0xFF);
    // first tile-map entry selects tile 1
    vram.write_byte(0x9800, 0x01);
    let buffer = read_background(&vram, TileMap::One, BgWindowDataArea::Low, 0, 0);
    assert_eq!(buffer.len(), 144 * 160 * 3);
    // the first eight screen pixels come from that line
    assert_eq!(&buffer[0..3], &[0xee, 0xff, 0xee]);
    assert_eq!(&buffer[21..24], &[0xee, 0xff, 0xee]);
    // the ninth pixel is outside the tile and black
    assert_eq!(&buffer[24..27], &[0x00, 0x20, 0x00]);
    // the second screen row reads the tile's second line, which is black
    assert_eq!(&buffer[160 * 3..160 * 3 + 3], &[0x00, 0x20, 0x00]);
}

#[test]
fn read_background_applies_the_scroll() {
    let mut vram = VideoRam::default();
    // tile 2, line 3, leftmost pixel light grey (high plane only)
    vram.write_byte(0x8026, 0x00);
    vram.write_byte(0x8027, 0x80);
    // the tile sits one row and one column into the second tile map
    vram.write_byte(0x9C21, 0x02);
    let buffer = read_background(&vram, TileMap::Two, BgWindowDataArea::Low, 8, 8);
    // screen position (row 3, col 0) now lands on tile-map cell (1, 1),
    // line 3, column 0 of tile 2
    let index = (3 * 160 + 0) * 3;
    assert_eq!(&buffer[index..index + 3], &[0x40, 0x80, 0x40]);
}

use gb_core::memory_behavior::Memory;
use gb_core::memorybus::MemoryBus;
use gb_core::vram::{Tile, VideoRam};

#[test]
fn write_tile() {
    let mut tile = Tile::default();
    tile.write_line(0, 0x3C7E);
    assert_eq!(tile.higher_bytes[0], 0x7E);
    assert_eq!(tile.lower_bytes[0], 0x3C);
}

#[test]
fn write_tile_map() {
    let mut vram = VideoRam::default();
    vram.write_byte(0x9C42, 0x42);
    assert_eq!(vram.tile_map_2[0x42], 0x42);
}

#[test]
fn write_tile_data_by_byte() {
    let mut vram = VideoRam::default();
    // the byte at an even address is a line's low plane, the odd one above
    // it the high plane of the same line
    vram.write_byte(0x8010, 0xAA);
    vram.write_byte(0x8011, 0x55);
    assert_eq!(vram.tile_data[1].lower_bytes[0], 0xAA);
    assert_eq!(vram.tile_data[1].higher_bytes[0], 0x55);
    assert_eq!(vram.read_byte(0x8010), 0xAA);
    assert_eq!(vram.read_byte(0x8011), 0x55);
}

#[test]
fn bus_routes_every_region() {
    let mut bus = MemoryBus::new();
    // one probe per region of the address map
    let probes: [(u16, u8); 10] = [
        (0x0000, 1),
        (0x8000, 2),
        (0xA000, 3),
        (0xC000, 4),
        (0xD000, 5),
        (0xE000, 6),
        (0xFE00, 7),
        (0xFF00, 8),
        (0xFF80, 9),
        (0xFFFF, 10),
    ];
    for (address, value) in probes {
        bus.write_byte(address, value);
    }
    for (address, value) in probes {
        assert_eq!(bus.read_byte(address), value);
    }
    // region ends route to the same region as their starts
    bus.write_byte(0x7FFF, 11);
    bus.write_byte(0x9FFF, 12);
    bus.write_byte(0xFDFF, 13);
    bus.write_byte(0xFFFE, 14);
    assert_eq!(bus.read_byte(0x7FFF), 11);
    assert_eq!(bus.read_byte(0x9FFF), 12);
    assert_eq!(bus.read_byte(0xFDFF), 13);
    assert_eq!(bus.read_byte(0xFFFE), 14);
}

#[test]
fn echo_ram_is_independently_backed() {
    let mut bus = MemoryBus::new();
    bus.write_byte(0xC100, 0x77);
    // the echo region is a region of its own in this design, not a mirror
    assert_eq!(bus.read_byte(0xE100), 0x00);
    bus.write_byte(0xE100, 0x66);
    assert_eq!(bus.read_byte(0xE100), 0x66);
    assert_eq!(bus.read_byte(0xC100), 0x77);
}

#[test]
fn words_are_little_endian() {
    let mut bus = MemoryBus::new();
    bus.write_word(0xC000, 0x1234);
    assert_eq!(bus.read_byte(0xC000), 0x34);
    assert_eq!(bus.read_byte(0xC001), 0x12);
    assert_eq!(bus.read_word(0xC000), 0x1234);
}

#[test]
fn load_fills_the_program_region() {
    let mut bus = MemoryBus::new();
    let boot: Vec<u8> = vec![0xAA; 0x100];
    assert!(bus.load(0, &boot));
    let cartridge: Vec<u8> = vec![0xBB; 0x200];
    assert!(bus.load(0x100, &cartridge));
    assert_eq!(bus.read_byte(0x0000), 0xAA);
    assert_eq!(bus.read_byte(0x00FF), 0xAA);
    assert_eq!(bus.read_byte(0x0100), 0xBB);
    assert_eq!(bus.read_byte(0x02FF), 0xBB);
    assert_eq!(bus.read_byte(0x0300), 0x00);
}

#[test]
fn load_rejects_a_blob_past_the_program_region() {
    let mut bus = MemoryBus::new();
    bus.write_byte(0x0000, 0x42);
    let too_long: Vec<u8> = vec![0xCC; 0x8001];
    assert!(!bus.load(0, &too_long));
    let past_the_end: Vec<u8> = vec![0xCC; 0x10];
    assert!(!bus.load(0x7FF8, &past_the_end));
    // a rejected load leaves the bus untouched
    assert_eq!(bus.read_byte(0x0000), 0x42);
    assert_eq!(bus.read_byte(0x7FF8), 0x00);
    // an empty blob always fits
    let empty: Vec<u8> = Vec::new();
    assert!(bus.load(0x8000, &empty));
}

#[test]
fn region_bounds_follow_the_address_map() {
    assert_eq!(gb_core::memory_zone::ReadOnlyMemory::start(), 0x0000);
    assert_eq!(gb_core::memory_zone::ReadOnlyMemory::end(), 0x7FFF);
    assert_eq!(VideoRam::start(), 0x8000);
    assert_eq!(VideoRam::end(), 0x9FFF);
    assert_eq!(gb_core::memory_zone::ExternalRam::start(), 0xA000);
    assert_eq!(gb_core::memory_zone::ExternalRam::end(), 0xBFFF);
    assert_eq!(gb_core::memory_zone::Bank1::start(), 0xC000);
    assert_eq!(gb_core::memory_zone::Bank1::end(), 0xCFFF);
    assert_eq!(gb_core::memory_zone::Bank0::start(), 0xD000);
    assert_eq!(gb_core::memory_zone::Bank0::end(), 0xDFFF);
    assert_eq!(gb_core::memory_zone::EchoRam::start(), 0xE000);
    assert_eq!(gb_core::memory_zone::EchoRam::end(), 0xFDFF);
    assert_eq!(gb_core::memory_zone::SpriteAttributeTable::start(), 0xFE00);
    assert_eq!(gb_core::memory_zone::SpriteAttributeTable::end(), 0xFE9F);
    assert_eq!(gb_core::memory_zone::IoRegister::start(), 0xFF00);
    assert_eq!(gb_core::memory_zone::IoRegister::end(), 0xFF7F);
    assert_eq!(gb_core::memory_zone::HighRam::start(), 0xFF80);
    assert_eq!(gb_core::memory_zone::HighRam::end(), 0xFFFE);
    assert_eq!(gb_core::memory_zone::InterruptsRegister::start(), 0xFFFF);
    assert_eq!(gb_core::memory_zone::InterruptsRegister::end(), 0xFFFF);
}

#[test]
fn test_memory() {
    let buffer = vec![1, 2, 3, 4, 5];
    let mut memory = gb_core::memory_zone::ExternalRam { buffer };

    assert_eq!(memory.read_byte(0xA000), 1);
    assert_eq!(memory.read_byte(0xA004), 5);

    memory.write_byte(0xA001, 42);
    assert_eq!(memory.read_byte(0xA001), 42);
}

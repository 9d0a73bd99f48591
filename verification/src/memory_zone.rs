use vstd::prelude::*;

verus! {

use crate::memory_behavior::{buf_read, buf_write, zero_buffer, Memory};

/// From 0x0000 to 0x7FFF
/// Read only memory : boot sequence + cartridge
#[derive(Debug)]
pub struct ReadOnlyMemory {
    pub buffer: Vec<u8>,
}

impl Default for ReadOnlyMemory {
    fn default() -> (r: Self)
        ensures
            r.wf(),
            r.contents() == Seq::new(Self::spec_size(), |i: int| 0u8),
    {
        ReadOnlyMemory { buffer: zero_buffer(0x8000) }
    }
}

impl Memory for ReadOnlyMemory {
    open spec fn spec_start() -> u16 {
        0x0000
    }

    open spec fn spec_size() -> nat {
        0x8000
    }

    open spec fn contents(&self) -> Seq<u8> {
        self.buffer@
    }

    open spec fn wf(&self) -> bool {
        self.buffer.len() == 0x8000
    }

    fn start() -> u16 {
        0x0000
    }

    fn end() -> u16 {
        0x7FFF
    }

    fn local_address(address: u16) -> u16 {
        address - 0x0000
    }

    fn read_byte(&self, address: u16) -> u8 {
        buf_read(&self.buffer, 0x0000, address)
    }

    fn write_byte(&mut self, address: u16, content: u8) {
        buf_write(&mut self.buffer, 0x0000, address, content);
    }

    fn read_word(&self, address: u16) -> u16 {
        let low = buf_read(&self.buffer, 0x0000, address);
        let high = buf_read(&self.buffer, 0x0000, address + 1);
        (low as u16) + (high as u16) * 256
    }

    fn write_word(&mut self, address: u16, content: u16) {
        buf_write(&mut self.buffer, 0x0000, address, (content % 256) as u8);
        buf_write(&mut self.buffer, 0x0000, address + 1, (content / 256) as u8);
    }
}

/// From 0xA000 to 0xBFFF
/// RAM brought by the cartridge
#[derive(Debug)]
pub struct ExternalRam {
    pub buffer: Vec<u8>,
}

impl Default for ExternalRam {
    fn default() -> (r: Self)
        ensures
            r.wf(),
            r.contents() == Seq::new(Self::spec_size(), |i: int| 0u8),
    {
        ExternalRam { buffer: zero_buffer(0x2000) }
    }
}

impl Memory for ExternalRam {
    open spec fn spec_start() -> u16 {
        0xA000
    }

    open spec fn spec_size() -> nat {
        0x2000
    }

    open spec fn contents(&self) -> Seq<u8> {
        self.buffer@
    }

    open spec fn wf(&self) -> bool {
        self.buffer.len() == 0x2000
    }

    fn start() -> u16 {
        0xA000
    }

    fn end() -> u16 {
        0xBFFF
    }

    fn local_address(address: u16) -> u16 {
        address - 0xA000
    }

    fn read_byte(&self, address: u16) -> u8 {
        buf_read(&self.buffer, 0xA000, address)
    }

    fn write_byte(&mut self, address: u16, content: u8) {
        buf_write(&mut self.buffer, 0xA000, address, content);
    }

    fn read_word(&self, address: u16) -> u16 {
        let low = buf_read(&self.buffer, 0xA000, address);
        let high = buf_read(&self.buffer, 0xA000, address + 1);
        (low as u16) + (high as u16) * 256
    }

    fn write_word(&mut self, address: u16, content: u16) {
        buf_write(&mut self.buffer, 0xA000, address, (content % 256) as u8);
        buf_write(&mut self.buffer, 0xA000, address + 1, (content / 256) as u8);
    }
}

/// From 0xC000 to 0xCFFF
/// Work RAM bank
#[derive(Debug)]
pub struct Bank1 {
    pub buffer: Vec<u8>,
}

impl Default for Bank1 {
    fn default() -> (r: Self)
        ensures
            r.wf(),
            r.contents() == Seq::new(Self::spec_size(), |i: int| 0u8),
    {
        Bank1 { buffer: zero_buffer(0x1000) }
    }
}

impl Memory for Bank1 {
    open spec fn spec_start() -> u16 {
        0xC000
    }

    open spec fn spec_size() -> nat {
        0x1000
    }

    open spec fn contents(&self) -> Seq<u8> {
        self.buffer@
    }

    open spec fn wf(&self) -> bool {
        self.buffer.len() == 0x1000
    }

    fn start() -> u16 {
        0xC000
    }

    fn end() -> u16 {
        0xCFFF
    }

    fn local_address(address: u16) -> u16 {
        address - 0xC000
    }

    fn read_byte(&self, address: u16) -> u8 {
        buf_read(&self.buffer, 0xC000, address)
    }

    fn write_byte(&mut self, address: u16, content: u8) {
        buf_write(&mut self.buffer, 0xC000, address, content);
    }

    fn read_word(&self, address: u16) -> u16 {
        let low = buf_read(&self.buffer, 0xC000, address);
        let high = buf_read(&self.buffer, 0xC000, address + 1);
        (low as u16) + (high as u16) * 256
    }

    fn write_word(&mut self, address: u16, content: u16) {
        buf_write(&mut self.buffer, 0xC000, address, (content % 256) as u8);
        buf_write(&mut self.buffer, 0xC000, address + 1, (content / 256) as u8);
    }
}

/// From 0xD000 to 0xDFFF
/// Work RAM bank
#[derive(Debug)]
pub struct Bank0 {
    pub buffer: Vec<u8>,
}

impl Default for Bank0 {
    fn default() -> (r: Self)
        ensures
            r.wf(),
            r.contents() == Seq::new(Self::spec_size(), |i: int| 0u8),
    {
        Bank0 { buffer: zero_buffer(0x1000) }
    }
}

impl Memory for Bank0 {
    open spec fn spec_start() -> u16 {
        0xD000
    }

    open spec fn spec_size() -> nat {
        0x1000
    }

    open spec fn contents(&self) -> Seq<u8> {
        self.buffer@
    }

    open spec fn wf(&self) -> bool {
        self.buffer.len() == 0x1000
    }

    fn start() -> u16 {
        0xD000
    }

    fn end() -> u16 {
        0xDFFF
    }

    fn local_address(address: u16) -> u16 {
        address - 0xD000
    }

    fn read_byte(&self, address: u16) -> u8 {
        buf_read(&self.buffer, 0xD000, address)
    }

    fn write_byte(&mut self, address: u16, content: u8) {
        buf_write(&mut self.buffer, 0xD000, address, content);
    }

    fn read_word(&self, address: u16) -> u16 {
        let low = buf_read(&self.buffer, 0xD000, address);
        let high = buf_read(&self.buffer, 0xD000, address + 1);
        (low as u16) + (high as u16) * 256
    }

    fn write_word(&mut self, address: u16, content: u16) {
        buf_write(&mut self.buffer, 0xD000, address, (content % 256) as u8);
        buf_write(&mut self.buffer, 0xD000, address + 1, (content / 256) as u8);
    }
}

/// From 0xE000 to 0xFDFF
/// Echo RAM: a distinct region of its own in this design, not a view
#[derive(Debug)]
pub struct EchoRam {
    pub buffer: Vec<u8>,
}

impl Default for EchoRam {
    fn default() -> (r: Self)
        ensures
            r.wf(),
            r.contents() == Seq::new(Self::spec_size(), |i: int| 0u8),
    {
        EchoRam { buffer: zero_buffer(0x1E00) }
    }
}

impl Memory for EchoRam {
    open spec fn spec_start() -> u16 {
        0xE000
    }

    open spec fn spec_size() -> nat {
        0x1E00
    }

    open spec fn contents(&self) -> Seq<u8> {
        self.buffer@
    }

    open spec fn wf(&self) -> bool {
        self.buffer.len() == 0x1E00
    }

    fn start() -> u16 {
        0xE000
    }

    fn end() -> u16 {
        0xFDFF
    }

    fn local_address(address: u16) -> u16 {
        address - 0xE000
    }

    fn read_byte(&self, address: u16) -> u8 {
        buf_read(&self.buffer, 0xE000, address)
    }

    fn write_byte(&mut self, address: u16, content: u8) {
        buf_write(&mut self.buffer, 0xE000, address, content);
    }

    fn read_word(&self, address: u16) -> u16 {
        let low = buf_read(&self.buffer, 0xE000, address);
        let high = buf_read(&self.buffer, 0xE000, address + 1);
        (low as u16) + (high as u16) * 256
    }

    fn write_word(&mut self, address: u16, content: u16) {
        buf_write(&mut self.buffer, 0xE000, address, (content % 256) as u8);
        buf_write(&mut self.buffer, 0xE000, address + 1, (content / 256) as u8);
    }
}

/// From 0xFE00 to 0xFE9F
/// Sprite attribute table
#[derive(Debug)]
pub struct SpriteAttributeTable {
    pub buffer: Vec<u8>,
}

impl Default for SpriteAttributeTable {
    fn default() -> (r: Self)
        ensures
            r.wf(),
            r.contents() == Seq::new(Self::spec_size(), |i: int| 0u8),
    {
        SpriteAttributeTable { buffer: zero_buffer(0xA0) }
    }
}

impl Memory for SpriteAttributeTable {
    open spec fn spec_start() -> u16 {
        0xFE00
    }

    open spec fn spec_size() -> nat {
        0xA0
    }

    open spec fn contents(&self) -> Seq<u8> {
        self.buffer@
    }

    open spec fn wf(&self) -> bool {
        self.buffer.len() == 0xA0
    }

    fn start() -> u16 {
        0xFE00
    }

    fn end() -> u16 {
        0xFE9F
    }

    fn local_address(address: u16) -> u16 {
        address - 0xFE00
    }

    fn read_byte(&self, address: u16) -> u8 {
        buf_read(&self.buffer, 0xFE00, address)
    }

    fn write_byte(&mut self, address: u16, content: u8) {
        buf_write(&mut self.buffer, 0xFE00, address, content);
    }

    fn read_word(&self, address: u16) -> u16 {
        let low = buf_read(&self.buffer, 0xFE00, address);
        let high = buf_read(&self.buffer, 0xFE00, address + 1);
        (low as u16) + (high as u16) * 256
    }

    fn write_word(&mut self, address: u16, content: u16) {
        buf_write(&mut self.buffer, 0xFE00, address, (content % 256) as u8);
        buf_write(&mut self.buffer, 0xFE00, address + 1, (content / 256) as u8);
    }
}

/// From 0xFF00 to 0xFF7F
/// IO registers: inputs, sound, scroll and LCD state
#[derive(Debug)]
pub struct IoRegister {
    pub buffer: Vec<u8>,
}

impl Default for IoRegister {
    fn default() -> (r: Self)
        ensures
            r.wf(),
            r.contents() == Seq::new(Self::spec_size(), |i: int| 0u8),
    {
        IoRegister { buffer: zero_buffer(0x80) }
    }
}

impl Memory for IoRegister {
    open spec fn spec_start() -> u16 {
        0xFF00
    }

    open spec fn spec_size() -> nat {
        0x80
    }

    open spec fn contents(&self) -> Seq<u8> {
        self.buffer@
    }

    open spec fn wf(&self) -> bool {
        self.buffer.len() == 0x80
    }

    fn start() -> u16 {
        0xFF00
    }

    fn end() -> u16 {
        0xFF7F
    }

    fn local_address(address: u16) -> u16 {
        address - 0xFF00
    }

    fn read_byte(&self, address: u16) -> u8 {
        buf_read(&self.buffer, 0xFF00, address)
    }

    fn write_byte(&mut self, address: u16, content: u8) {
        buf_write(&mut self.buffer, 0xFF00, address, content);
    }

    fn read_word(&self, address: u16) -> u16 {
        let low = buf_read(&self.buffer, 0xFF00, address);
        let high = buf_read(&self.buffer, 0xFF00, address + 1);
        (low as u16) + (high as u16) * 256
    }

    fn write_word(&mut self, address: u16, content: u16) {
        buf_write(&mut self.buffer, 0xFF00, address, (content % 256) as u8);
        buf_write(&mut self.buffer, 0xFF00, address + 1, (content / 256) as u8);
    }
}

/// From 0xFF80 to 0xFFFE
/// High RAM
#[derive(Debug)]
pub struct HighRam {
    pub buffer: Vec<u8>,
}

impl Default for HighRam {
    fn default() -> (r: Self)
        ensures
            r.wf(),
            r.contents() == Seq::new(Self::spec_size(), |i: int| 0u8),
    {
        HighRam { buffer: zero_buffer(0x7F) }
    }
}

impl Memory for HighRam {
    open spec fn spec_start() -> u16 {
        0xFF80
    }

    open spec fn spec_size() -> nat {
        0x7F
    }

    open spec fn contents(&self) -> Seq<u8> {
        self.buffer@
    }

    open spec fn wf(&self) -> bool {
        self.buffer.len() == 0x7F
    }

    fn start() -> u16 {
        0xFF80
    }

    fn end() -> u16 {
        0xFFFE
    }

    fn local_address(address: u16) -> u16 {
        address - 0xFF80
    }

    fn read_byte(&self, address: u16) -> u8 {
        buf_read(&self.buffer, 0xFF80, address)
    }

    fn write_byte(&mut self, address: u16, content: u8) {
        buf_write(&mut self.buffer, 0xFF80, address, content);
    }

    fn read_word(&self, address: u16) -> u16 {
        let low = buf_read(&self.buffer, 0xFF80, address);
        let high = buf_read(&self.buffer, 0xFF80, address + 1);
        (low as u16) + (high as u16) * 256
    }

    fn write_word(&mut self, address: u16, content: u16) {
        buf_write(&mut self.buffer, 0xFF80, address, (content % 256) as u8);
        buf_write(&mut self.buffer, 0xFF80, address + 1, (content / 256) as u8);
    }
}

/// The single interrupt-enable byte at 0xFFFF
#[derive(Debug)]
pub struct InterruptsRegister {
    pub buffer: Vec<u8>,
}

impl Default for InterruptsRegister {
    fn default() -> (r: Self)
        ensures
            r.wf(),
            r.contents() == Seq::new(Self::spec_size(), |i: int| 0u8),
    {
        InterruptsRegister { buffer: zero_buffer(0x1) }
    }
}

impl Memory for InterruptsRegister {
    open spec fn spec_start() -> u16 {
        0xFFFF
    }

    open spec fn spec_size() -> nat {
        0x1
    }

    open spec fn contents(&self) -> Seq<u8> {
        self.buffer@
    }

    open spec fn wf(&self) -> bool {
        self.buffer.len() == 0x1
    }

    fn start() -> u16 {
        0xFFFF
    }

    fn end() -> u16 {
        0xFFFF
    }

    fn local_address(address: u16) -> u16 {
        address - 0xFFFF
    }

    fn read_byte(&self, address: u16) -> u8 {
        buf_read(&self.buffer, 0xFFFF, address)
    }

    fn write_byte(&mut self, address: u16, content: u8) {
        buf_write(&mut self.buffer, 0xFFFF, address, content);
    }

    fn read_word(&self, address: u16) -> u16 {
        let low = buf_read(&self.buffer, 0xFFFF, address);
        let high = buf_read(&self.buffer, 0xFFFF, address + 1);
        (low as u16) + (high as u16) * 256
    }

    fn write_word(&mut self, address: u16, content: u16) {
        buf_write(&mut self.buffer, 0xFFFF, address, (content % 256) as u8);
        buf_write(&mut self.buffer, 0xFFFF, address + 1, (content / 256) as u8);
    }
}

} // verus!

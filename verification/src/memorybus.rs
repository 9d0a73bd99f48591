use vstd::prelude::*;

verus! {

use crate::memory_behavior::Memory;
use crate::memory_zone::{
    Bank0, Bank1, EchoRam, ExternalRam, HighRam, InterruptsRegister, IoRegister, ReadOnlyMemory,
    SpriteAttributeTable,
};
use crate::vram::VideoRam;

/// Does the read-only program region own the address?
pub open spec fn claims_rom(address: u16) -> bool {
    address <= 0x7FFF
}

/// Does video RAM own the address?
pub open spec fn claims_vram(address: u16) -> bool {
    0x8000 <= address <= 0x9FFF
}

/// Does the cartridge RAM region own the address?
pub open spec fn claims_external_ram(address: u16) -> bool {
    0xA000 <= address <= 0xBFFF
}

/// Does the first work-RAM bank own the address?
pub open spec fn claims_bank_1(address: u16) -> bool {
    0xC000 <= address <= 0xCFFF
}

/// Does the second work-RAM bank own the address?
pub open spec fn claims_bank_0(address: u16) -> bool {
    0xD000 <= address <= 0xDFFF
}

/// Does echo RAM own the address?
pub open spec fn claims_echo_ram(address: u16) -> bool {
    0xE000 <= address <= 0xFDFF
}

/// Does the sprite attribute table own the address?
pub open spec fn claims_sprite_table(address: u16) -> bool {
    0xFE00 <= address <= 0xFE9F
}

/// Does the I/O register file own the address?
pub open spec fn claims_io_register(address: u16) -> bool {
    0xFF00 <= address <= 0xFF7F
}

/// Does high RAM own the address?
pub open spec fn claims_high_ram(address: u16) -> bool {
    0xFF80 <= address <= 0xFFFE
}

/// Does the interrupt-enable register own the address?
pub open spec fn claims_interrupts_register(address: u16) -> bool {
    address == 0xFFFF
}

/// Some region claims the address.  The documented map leaves 0xFEA0 to
/// 0xFEFF unclaimed: an access there is a fatal condition on the real
/// machine, so every routed access requires a mapped address.
pub open spec fn mapped(address: u16) -> bool {
    !(0xFEA0 <= address <= 0xFEFF)
}

/// The regions partition the mapped address space: every mapped address is
/// claimed by exactly one region, so routing is never ambiguous and never
/// falls through.  Only the unclaimed band from 0xFEA0 to 0xFEFF stands
/// outside every region, and an access there is fatal by design.
pub proof fn lemma_address_map_partition(address: u16)
    requires
        mapped(address),
    ensures
        (if claims_rom(address) {
            1int
        } else {
            0int
        }) + (if claims_vram(address) {
            1int
        } else {
            0int
        }) + (if claims_external_ram(address) {
            1int
        } else {
            0int
        }) + (if claims_bank_1(address) {
            1int
        } else {
            0int
        }) + (if claims_bank_0(address) {
            1int
        } else {
            0int
        }) + (if claims_echo_ram(address) {
            1int
        } else {
            0int
        }) + (if claims_sprite_table(address) {
            1int
        } else {
            0int
        }) + (if claims_io_register(address) {
            1int
        } else {
            0int
        }) + (if claims_high_ram(address) {
            1int
        } else {
            0int
        }) + (if claims_interrupts_register(address) {
            1int
        } else {
            0int
        }) == 1,
{
}

/// The memory bus is the shared memory of the machine: it owns every region
/// and routes each 16-bit address to the one region that claims it.  Its
/// view `@` is the full 64 KiB byte space that routing produces.
#[derive(Debug)]
pub struct MemoryBus {
    /// ROM : boot sequence + cartridge game
    pub read_only_memory: ReadOnlyMemory,
    /// Buffer for display
    pub video_ram: VideoRam,
    /// RAM brought by the cartridge
    pub external_ram: ExternalRam,
    /// Work RAM
    pub bank_1: Bank1,
    /// Work RAM
    pub bank_0: Bank0,
    /// Echo RAM. Usually not used
    pub echo_ram: EchoRam,
    /// Sprite attribute table
    pub sprite_attribute_table: SpriteAttributeTable,
    /// IO register to store inputs, sound etc
    pub io_register: IoRegister,
    /// Yet an other RAM
    pub high_ram: HighRam,
    /// Interrupt register
    pub interrupt_register: InterruptsRegister,
}

impl MemoryBus {
    /// Every region holds exactly its own size in bytes.
    pub open spec fn wf(&self) -> bool {
        &&& self.read_only_memory.wf()
        &&& self.video_ram.wf()
        &&& self.external_ram.wf()
        &&& self.bank_1.wf()
        &&& self.bank_0.wf()
        &&& self.echo_ram.wf()
        &&& self.sprite_attribute_table.wf()
        &&& self.io_register.wf()
        &&& self.high_ram.wf()
        &&& self.interrupt_register.wf()
    }

    /// The byte the owning region holds for a global address.
    pub open spec fn byte_at(&self, a: int) -> u8 {
        if a < 0x8000 {
            self.read_only_memory.contents()[a]
        } else if a < 0xA000 {
            self.video_ram.contents()[a - 0x8000]
        } else if a < 0xC000 {
            self.external_ram.contents()[a - 0xA000]
        } else if a < 0xD000 {
            self.bank_1.contents()[a - 0xC000]
        } else if a < 0xE000 {
            self.bank_0.contents()[a - 0xD000]
        } else if a < 0xFE00 {
            self.echo_ram.contents()[a - 0xE000]
        } else if a < 0xFEA0 {
            self.sprite_attribute_table.contents()[a - 0xFE00]
        } else if a < 0xFF00 {
            0u8
        } else if a < 0xFF80 {
            self.io_register.contents()[a - 0xFF00]
        } else if a < 0xFFFF {
            self.high_ram.contents()[a - 0xFF80]
        } else {
            self.interrupt_register.contents()[a - 0xFFFF]
        }
    }

    /// A fresh bus: every region zeroed.  Loading a boot sequence or a
    /// cartridge is the caller's step, through `load`.
    pub fn new() -> (r: Self)
        ensures
            r.wf(),
            r@ == Seq::new(0x10000, |i: int| 0u8),
    {
        let r = MemoryBus {
            read_only_memory: ReadOnlyMemory::default(),
            video_ram: VideoRam::default(),
            external_ram: ExternalRam::default(),
            bank_1: Bank1::default(),
            bank_0: Bank0::default(),
            echo_ram: EchoRam::default(),
            sprite_attribute_table: SpriteAttributeTable::default(),
            io_register: IoRegister::default(),
            high_ram: HighRam::default(),
            interrupt_register: InterruptsRegister::default(),
        };
        proof {
            assert(r@ =~= Seq::new(0x10000, |i: int| 0u8));
        }
        r
    }

    /// Copy a blob into the read-only program region, starting at `offset`.
    /// Succeeds exactly when the blob fits below 0x8000; on failure the bus
    /// is left untouched, so the machine never starts half loaded.
    pub fn load(&mut self, offset: u16, data: &Vec<u8>) -> (r: bool)
        requires
            old(self).wf(),
        ensures
            final(self).wf(),
            r == (offset + data@.len() <= 0x8000),
            r ==> forall|i: int|
                0 <= i < 0x10000 ==> final(self)@[i] == (if offset <= i < offset + data@.len() {
                    data@[i - offset]
                } else {
                    old(self)@[i]
                }),
            !r ==> *final(self) == *old(self),
    {
        if data.len() > 0x8000 || offset as usize > 0x8000 - data.len() {
            return false;
        }
        let mut i: usize = 0;
        while i < data.len()
            invariant
                self.wf(),
                offset + data@.len() <= 0x8000,
                i <= data.len(),
                forall|j: int|
                    0 <= j < 0x10000 ==> self@[j] == (if offset <= j < offset + i {
                        data@[j - offset]
                    } else {
                        old(self)@[j]
                    }),
            decreases data.len() - i,
        {
            self.write_byte(offset + (i as u16), data[i]);
            i += 1;
        }
        true
    }

    /// Route a byte read to the region claiming the address.
    pub fn read_byte(&self, address: u16) -> (r: u8)
        requires
            self.wf(),
            mapped(address),
        ensures
            r == self@[address as int],
    {
        if address <= 0x7FFF {
            self.read_only_memory.read_byte(address)
        } else if address <= 0x9FFF {
            self.video_ram.read_byte(address)
        } else if address <= 0xBFFF {
            self.external_ram.read_byte(address)
        } else if address <= 0xCFFF {
            self.bank_1.read_byte(address)
        } else if address <= 0xDFFF {
            self.bank_0.read_byte(address)
        } else if address <= 0xFDFF {
            self.echo_ram.read_byte(address)
        } else if address <= 0xFE9F {
            self.sprite_attribute_table.read_byte(address)
        } else if address <= 0xFF7F {
            self.io_register.read_byte(address)
        } else if address <= 0xFFFE {
            self.high_ram.read_byte(address)
        } else {
            self.interrupt_register.read_byte(address)
        }
    }

    /// Read the little-endian word whose low byte sits at `address`.
    pub fn read_word(&self, address: u16) -> (r: u16)
        requires
            self.wf(),
            address < 0xFFFF,
            mapped(address),
            mapped((address + 1) as u16),
        ensures
            r == self@[address as int] + self@[address as int + 1] * 256,
    {
        let low = self.read_byte(address);
        let high = self.read_byte(address + 1);
        (low as u16) + (high as u16) * 256
    }

    /// The video RAM, in the structured form the renderer reads.
    pub fn vram(&self) -> (r: &VideoRam)
        ensures
            r == &self.video_ram,
    {
        &self.video_ram
    }

    /// Route a byte write to the region claiming the address.
    pub fn write_byte(&mut self, address: u16, value: u8)
        requires
            old(self).wf(),
            mapped(address),
        ensures
            final(self).wf(),
            final(self)@ == old(self)@.update(address as int, value),
    {
        if address <= 0x7FFF {
            self.read_only_memory.write_byte(address, value);
        } else if address <= 0x9FFF {
            self.video_ram.write_byte(address, value);
        } else if address <= 0xBFFF {
            self.external_ram.write_byte(address, value);
        } else if address <= 0xCFFF {
            self.bank_1.write_byte(address, value);
        } else if address <= 0xDFFF {
            self.bank_0.write_byte(address, value);
        } else if address <= 0xFDFF {
            self.echo_ram.write_byte(address, value);
        } else if address <= 0xFE9F {
            self.sprite_attribute_table.write_byte(address, value);
        } else if address <= 0xFF7F {
            self.io_register.write_byte(address, value);
        } else if address <= 0xFFFE {
            self.high_ram.write_byte(address, value);
        } else {
            self.interrupt_register.write_byte(address, value);
        }
        proof {
            assert(self@ =~= old(self)@.update(address as int, value));
        }
    }

    /// Write a little-endian word: the low byte to `address`, the high byte
    /// to the following address.
    pub fn write_word(&mut self, address: u16, value: u16)
        requires
            old(self).wf(),
            address < 0xFFFF,
            mapped(address),
            mapped((address + 1) as u16),
        ensures
            final(self).wf(),
            final(self)@ == old(self)@.update(address as int, (value % 256) as u8).update(
                address as int + 1,
                (value / 256) as u8,
            ),
    {
        self.write_byte(address, (value % 256) as u8);
        self.write_byte(address + 1, (value / 256) as u8);
    }
}

impl View for MemoryBus {
    type V = Seq<u8>;

    open spec fn view(&self) -> Seq<u8> {
        Seq::new(0x10000, |a: int| self.byte_at(a))
    }
}

impl Default for MemoryBus {
    fn default() -> (r: Self)
        ensures
            r.wf(),
            r@ == Seq::new(0x10000, |i: int| 0u8),
    {
        MemoryBus::new()
    }
}

} // verus!

//! The memory bus: address decoding over the 64 KiB space, the boot-ROM
//! overlay, work and high RAM, the joypad matrix, the interrupt
//! registers, and the OAM-DMA engine. The PPU owns VRAM, OAM and the
//! LCD registers; the bus forwards accesses to it.
use vstd::prelude::*;

verus! {

use crate::gpu::Gpu;
use crate::gpu::Interrupt;

/// A readable span of the address space. ROM regions ignore writes.
pub trait Region: Sized {
    /// Read the byte at an offset within the region.
    fn read(&self, address: u16) -> u8;

    /// Write a byte at an offset within the region. Every region of
    /// this crate is a read-only image, so a write changes nothing.
    fn write(&mut self, address: u16, value: u8)
        ensures
            *final(self) == *old(self),
    ;

    /// The region's size in bytes.
    fn len(&self) -> usize;
}

/// A read-only memory image.
pub struct Rom {
    /// The bytes of the image.
    pub mem: Vec<u8>,
}

impl Rom {
    /// Wrap a byte image as a ROM.
    pub fn new(mem: Vec<u8>) -> (r: Rom)
        ensures
            r.mem == mem,
    {
        Rom { mem }
    }

    /// What a read returns: the byte at the offset, or 0 past the end.
    pub open spec fn read_spec(self, address: u16) -> u8 {
        if address < self.mem.len() {
            self.mem[address as int]
        } else {
            0
        }
    }

    /// Read the byte at an offset, 0 past the end of the image.
    pub fn read_at(&self, address: u16) -> (r: u8)
        ensures
            r == self.read_spec(address),
    {
        if (address as usize) < self.mem.len() {
            self.mem[address as usize]
        } else {
            0
        }
    }

    /// The image size.
    pub fn size(&self) -> (n: usize)
        ensures
            n == self.mem.len(),
    {
        self.mem.len()
    }
}

impl Region for Rom {
    fn read(&self, address: u16) -> u8 {
        self.read_at(address)
    }

    fn write(&mut self, _address: u16, _value: u8) {
    }

    fn len(&self) -> usize {
        self.mem.len()
    }
}

/// A ROM installed at a base address.
pub struct Mapping {
    /// First address the region answers.
    pub start: u16,
    /// The region itself.
    pub rom: Rom,
}

/// Whether a mapping's address range contains `addr`.
pub open spec fn mapping_contains(m: Mapping, addr: u16) -> bool {
    m.start <= addr < m.start + m.rom.mem.len()
}

/// The first mapping at or after index `i` that contains `addr`.
pub open spec fn first_mapping_from(s: Seq<Mapping>, addr: u16, i: int) -> Option<int>
    decreases s.len() - i,
{
    if i < 0 || i >= s.len() {
        Option::None
    } else if mapping_contains(s[i], addr) {
        Option::Some(i)
    } else {
        first_mapping_from(s, addr, i + 1)
    }
}

/// The first mapping that contains `addr`: mapped earlier shadows later.
pub open spec fn first_mapping(s: Seq<Mapping>, addr: u16) -> Option<int> {
    first_mapping_from(s, addr, 0)
}

/// Set a single bit (given as a power-of-two mask) in a 5-bit register.
pub open spec fn with_bit(v: u8, m: u8) -> u8 {
    if (v / m) % 2 == 1 {
        v
    } else {
        (v + m) as u8
    }
}

/// The bit mask of an interrupt kind in IF and IE.
pub open spec fn interrupt_mask(kind: Interrupt) -> u8 {
    match kind {
        Interrupt::VBlank => 1,
        Interrupt::Status => 2,
        Interrupt::Timer => 4,
        Interrupt::Serial => 8,
        Interrupt::Joypad => 16,
    }
}

proof fn lemma_nibble_ops(a: u8, b: u8)
    by (bit_vector)
    requires
        a < 16,
        b < 16,
    ensures
        (a | b) < 16,
        (a & !b) < 16,
{
}

/// The memory bus.
pub struct Memory {
    /// The PPU, owner of VRAM, OAM and the LCD registers.
    pub gpu: Gpu,
    /// Installed ROM images; an earlier mapping shadows a later one, so
    /// the boot ROM is installed before the cartridge.
    pub mappings: Vec<Mapping>,
    /// Whether the boot-ROM overlay (mapping 0) is still mapped.
    pub boot_mapped: bool,
    /// 8 KiB of work RAM.
    pub ram: Vec<u8>,
    /// 127 bytes of high RAM.
    pub zero_page: Vec<u8>,
    /// The joypad select register: only bits 4 and 5 are kept.
    pub joyp: u8,
    /// IF, the interrupt request register: five bits.
    pub if_reg: u8,
    /// IE, the interrupt enable register.
    pub ie: u8,
    /// Pressed action buttons (Start, Select, B, A), one bit each.
    pub joy_action: u8,
    /// Pressed direction buttons (Down, Up, Left, Right), one bit each.
    pub joy_direction: u8,
}

impl Memory {
    /// Well-formed bus state: component sizes, registers within their
    /// bit widths, mappings inside the address space, and the overlay
    /// flag pointing at a 256-byte mapping at address 0.
    pub open spec fn wf(self) -> bool {
        &&& self.gpu.wf()
        &&& self.ram.len() == 0x2000
        &&& self.zero_page.len() == 127
        &&& self.joyp % 16 == 0
        &&& self.joyp < 64
        &&& self.if_reg < 32
        &&& self.joy_action < 16
        &&& self.joy_direction < 16
        &&& forall|j: int|
            0 <= j < self.mappings.len() ==> (#[trigger] self.mappings[j]).start
                + self.mappings[j].rom.mem.len() <= 0x8000
        &&& self.boot_mapped ==> self.mappings.len() >= 1 && self.mappings[0].start == 0
            && self.mappings[0].rom.mem.len() == 0x100
    }

    /// A bus around a PPU: empty RAM, nothing mapped, buttons released.
    pub fn new(gpu: Gpu) -> (m: Memory)
        requires
            gpu.wf(),
        ensures
            m.wf(),
            m.gpu == gpu,
            m.mappings@.len() == 0,
            !m.boot_mapped,
            m.ram@ == Seq::<u8>::new(0x2000, |i: int| 0u8),
            m.zero_page@ == Seq::<u8>::new(127, |i: int| 0u8),
            m.joyp == 0 && m.if_reg == 0 && m.ie == 0,
            m.joy_action == 0 && m.joy_direction == 0,
    {
        let mut ram: Vec<u8> = Vec::new();
        let mut i: usize = 0;
        while i < 0x2000
            invariant
                i <= 0x2000,
                ram@ =~= Seq::<u8>::new(i as nat, |j: int| 0u8),
            decreases 0x2000 - i,
        {
            ram.push(0);
            i += 1;
        }
        let mut zero_page: Vec<u8> = Vec::new();
        let mut i: usize = 0;
        while i < 127
            invariant
                i <= 127,
                zero_page@ =~= Seq::<u8>::new(i as nat, |j: int| 0u8),
            decreases 127 - i,
        {
            zero_page.push(0);
            i += 1;
        }
        Memory {
            gpu,
            mappings: Vec::new(),
            boot_mapped: false,
            ram,
            zero_page,
            joyp: 0,
            if_reg: 0,
            ie: 0,
            joy_action: 0,
            joy_direction: 0,
        }
    }

    /// Install a ROM image at a base address within the cartridge
    /// space. Earlier installations shadow later ones where they
    /// overlap.
    pub fn map(&mut self, address: u16, region: Rom)
        requires
            old(self).wf(),
            address + region.mem.len() <= 0x8000,
        ensures
            final(self).wf(),
            *final(self) == (Memory { mappings: final(self).mappings, ..*old(self) }),
            final(self).mappings@ == old(self).mappings@.push(
                Mapping { start: address, rom: region },
            ),
    {
        self.mappings.push(Mapping { start: address, rom: region });
    }

    /// Install the 256-byte boot ROM as the overlay at address 0. It
    /// must be the first image mapped, so that it shadows the cartridge.
    pub fn map_boot(&mut self, rom: Rom)
        requires
            old(self).wf(),
            old(self).mappings@.len() == 0,
            rom.mem.len() == 0x100,
        ensures
            final(self).wf(),
            *final(self) == (Memory {
                mappings: final(self).mappings,
                boot_mapped: true,
                ..*old(self)
            }),
            final(self).mappings@ == old(self).mappings@.push(Mapping { start: 0, rom }),
    {
        self.mappings.push(Mapping { start: 0, rom });
        self.boot_mapped = true;
    }

    /// Remove the first mapping that contains `address`, if any. When
    /// the removed mapping is the overlay, the boot ROM is gone for
    /// good.
    pub fn unmap(&mut self, address: u16)
        requires
            old(self).wf(),
        ensures
            final(self).wf(),
            match first_mapping(old(self).mappings@, address) {
                Option::Some(i) => *final(self) == (Memory {
                    mappings: final(self).mappings,
                    boot_mapped: old(self).boot_mapped && i != 0,
                    ..*old(self)
                }) && final(self).mappings@ == old(self).mappings@.remove(i),
                Option::None => *final(self) == *old(self),
            },
    {
        let mut i: usize = 0;
        let n: usize = self.mappings.len();
        while i < n
            invariant
                self.wf(),
                *self == *old(self),
                n == self.mappings.len(),
                i <= n,
                first_mapping(self.mappings@, address) == first_mapping_from(
                    self.mappings@,
                    address,
                    i as int,
                ),
            decreases n - i,
        {
            let m_start: u16 = self.mappings[i].start;
            let m_len: usize = self.mappings[i].rom.size();
            if m_start as usize <= address as usize && (address as usize) < m_start as usize
                + m_len {
                if i == 0 {
                    self.boot_mapped = false;
                }
                self.mappings.remove(i);
                return ;
            }
            i += 1;
        }
    }

    /// What a read of the joypad register returns: bits 6-7 set, the
    /// stored select bits, and the selected half of the matrix in the
    /// low nibble with pressed buttons reading 0. The action half wins
    /// when both are selected; neither selected reads all released.
    pub open spec fn joyp_read(self) -> u8 {
        (0xc0 + self.joyp + (if self.joyp < 32 {
            15 - self.joy_action
        } else if self.joyp % 32 < 16 {
            15 - self.joy_direction
        } else {
            15int
        })) as u8
    }

    /// What a read at `addr` outside any mapped ROM returns.
    pub open spec fn unmapped_load(self, addr: u16) -> u8 {
        if addr < 0x8000 {
            0
        } else if addr < 0xa000 {
            self.gpu.spec_read(addr)
        } else if addr < 0xc000 {
            0
        } else if addr < 0xe000 {
            self.ram[addr - 0xc000]
        } else if addr < 0xfe00 {
            self.ram[addr - 0xe000]
        } else if addr < 0xfea0 {
            self.gpu.spec_read(addr)
        } else if addr < 0xff00 {
            0xff
        } else if addr == 0xff00 {
            self.joyp_read()
        } else if addr == 0xff0f {
            (0xe0 + self.if_reg) as u8
        } else if 0xff40 <= addr <= 0xff4b {
            self.gpu.spec_read(addr)
        } else if 0xff80 <= addr <= 0xfffe {
            self.zero_page[addr - 0xff80]
        } else if addr == 0xffff {
            self.ie
        } else {
            0
        }
    }

    /// What a read at `addr` returns: the first mapped ROM containing
    /// the address, else the open bus decode.
    pub open spec fn load_spec(self, addr: u16) -> u8 {
        match first_mapping(self.mappings@, addr) {
            Option::Some(i) => self.mappings[i].rom.read_spec((addr - self.mappings[i].start) as u16),
            Option::None => self.unmapped_load(addr),
        }
    }

    /// Find the first mapping containing `address`.
    fn find_mapping(&self, address: u16) -> (r: Option<usize>)
        requires
            self.wf(),
        ensures
            match r {
                Option::Some(i) => first_mapping(self.mappings@, address) == Option::Some(i as int)
                    && i < self.mappings.len() && mapping_contains(self.mappings[i as int], address),
                Option::None => first_mapping(self.mappings@, address) is None,
            },
    {
        let mut i: usize = 0;
        let n: usize = self.mappings.len();
        while i < n
            invariant
                self.wf(),
                n == self.mappings.len(),
                i <= n,
                first_mapping(self.mappings@, address) == first_mapping_from(
                    self.mappings@,
                    address,
                    i as int,
                ),
            decreases n - i,
        {
            let m_start: u16 = self.mappings[i].start;
            let m_len: usize = self.mappings[i].rom.size();
            if m_start as usize <= address as usize && (address as usize) < m_start as usize
                + m_len {
                return Option::Some(i);
            }
            i += 1;
        }
        Option::None
    }

    /// Read a byte from the address space.
    pub fn load(&self, address: usize) -> (r: u8)
        requires
            self.wf(),
            address < 0x10000,
        ensures
            r == self.load_spec(address as u16),
    {
        let addr: u16 = address as u16;
        match self.find_mapping(addr) {
            Option::Some(i) => {
                let start: u16 = self.mappings[i].start;
                return self.mappings[i].rom.read_at(addr - start);
            },
            Option::None => {},
        }
        if addr < 0x8000 {
            0
        } else if addr < 0xa000 {
            self.gpu.read(addr)
        } else if addr < 0xc000 {
            0
        } else if addr < 0xe000 {
            self.ram[(addr - 0xc000) as usize]
        } else if addr < 0xfe00 {
            self.ram[(addr - 0xe000) as usize]
        } else if addr < 0xfea0 {
            self.gpu.read(addr)
        } else if addr < 0xff00 {
            0xff
        } else if addr == 0xff00 {
            let low: u8 = if self.joyp < 32 {
                15 - self.joy_action
            } else if self.joyp % 32 < 16 {
                15 - self.joy_direction
            } else {
                15
            };
            0xc0 + self.joyp + low
        } else if addr == 0xff0f {
            0xe0 + self.if_reg
        } else if 0xff40 <= addr && addr <= 0xff4b {
            self.gpu.read(addr)
        } else if 0xff80 <= addr && addr <= 0xfffe {
            self.zero_page[(addr - 0xff80) as usize]
        } else if addr == 0xffff {
            self.ie
        } else {
            0
        }
    }

    /// Copy 160 bytes from `src * 0x100` into OAM, as the DMA register
    /// commands. The source is read through the normal decode.
    fn dma(&mut self, src: u8)
        requires
            old(self).wf(),
        ensures
            final(self).wf(),
            *final(self) == (Memory { gpu: final(self).gpu, ..*old(self) }),
            final(self).gpu == (Gpu { oam: final(self).gpu.oam, ..old(self).gpu }),
            final(self).gpu.oam@.len() == 0xa0,
            forall|i: int|
                0 <= i < 0xa0 ==> final(self).gpu.oam@[i] == old(self).load_spec(
                    (src * 0x100 + i) as u16,
                ),
    {
        let base: usize = src as usize * 0x100;
        let mut i: usize = 0;
        while i < 0xa0
            invariant
                self.wf(),
                i <= 0xa0,
                base == src * 0x100,
                *self == (Memory { gpu: self.gpu, ..*old(self) }),
                self.gpu == (Gpu { oam: self.gpu.oam, ..old(self).gpu }),
                self.gpu.oam@.len() == 0xa0,
                forall|k: int| 0 <= k < i ==> self.gpu.oam@[k] == old(self).load_spec((src * 0x100 + k) as u16),
                forall|k: int| i <= k < 0xa0 ==> self.gpu.oam@[k] == old(self).gpu.oam@[k],
            decreases 0xa0 - i,
        {
            proof {
                assert(self.load_spec((base + i) as u16) == old(self).load_spec((base + i) as u16))
                    by {
                    assert(self.mappings@ == old(self).mappings@);
                    if 0xfe00 <= base + i < 0xfea0 {
                        assert(base + i - 0xfe00 >= i);
                    }
                };
            }
            let b: u8 = self.load(base + i);
            self.gpu.oam[i] = b;
            i += 1;
        }
    }

    /// Request an interrupt: set its bit in IF.
    pub fn request_interrupt(&mut self, kind: Interrupt)
        requires
            old(self).wf(),
        ensures
            final(self).wf(),
            *final(self) == (Memory {
                if_reg: with_bit(old(self).if_reg, interrupt_mask(kind)),
                ..*old(self)
            }),
    {
        let m: u8 = match kind {
            Interrupt::VBlank => 1,
            Interrupt::Status => 2,
            Interrupt::Timer => 4,
            Interrupt::Serial => 8,
            Interrupt::Joypad => 16,
        };
        if (self.if_reg / m) % 2 == 0 {
            self.if_reg = self.if_reg + m;
        }
    }

    /// The effect of a write. ROM and absent regions ignore writes; the
    /// echo region mirrors work RAM; a DMA write also fills OAM; a write
    /// to 0xff50 unmaps the boot overlay for good.
    pub open spec fn write_effect(old: Memory, new: Memory, addr: u16, value: u8) -> bool {
        if addr < 0x8000 || (0xa000 <= addr < 0xc000) || (0xfea0 <= addr < 0xff00) {
            new == old
        } else if addr < 0xa000 || (0xfe00 <= addr < 0xfea0) {
            new == (Memory { gpu: new.gpu, ..old }) && Gpu::write_effect(
                old.gpu,
                new.gpu,
                addr,
                value,
            )
        } else if addr < 0xe000 {
            new == (Memory { ram: new.ram, ..old }) && new.ram@ == old.ram@.update(
                addr - 0xc000,
                value,
            )
        } else if addr < 0xfe00 {
            new == (Memory { ram: new.ram, ..old }) && new.ram@ == old.ram@.update(
                addr - 0xe000,
                value,
            )
        } else if addr == 0xff00 {
            new == (Memory { joyp: ((value / 16) % 4 * 16) as u8, ..old })
        } else if addr == 0xff0f {
            new == (Memory { if_reg: (value % 32) as u8, ..old })
        } else if addr == 0xff46 {
            new == (Memory { gpu: new.gpu, ..old }) && new.gpu == (Gpu {
                oam: new.gpu.oam,
                dma: value,
                ..old.gpu
            }) && new.gpu.oam@.len() == 0xa0 && forall|i: int|
                0 <= i < 0xa0 ==> new.gpu.oam@[i] == old.load_spec((value * 0x100 + i) as u16)
        } else if 0xff40 <= addr <= 0xff4b {
            new == (Memory { gpu: new.gpu, ..old }) && Gpu::write_effect(
                old.gpu,
                new.gpu,
                addr,
                value,
            )
        } else if addr == 0xff50 {
            if old.boot_mapped {
                new == (Memory { mappings: new.mappings, boot_mapped: false, ..old })
                    && new.mappings@ == old.mappings@.remove(0)
            } else {
                new == old
            }
        } else if 0xff80 <= addr <= 0xfffe {
            new == (Memory { zero_page: new.zero_page, ..old }) && new.zero_page@
                == old.zero_page@.update(addr - 0xff80, value)
        } else if addr == 0xffff {
            new == (Memory { ie: value, ..old })
        } else {
            new == old
        }
    }

    /// Write a byte into the address space.
    pub fn write(&mut self, address: usize, value: u8)
        requires
            old(self).wf(),
            address < 0x10000,
        ensures
            final(self).wf(),
            Self::write_effect(*old(self), *final(self), address as u16, value),
    {
        let addr: u16 = address as u16;
        if addr < 0x8000 {
            // ROM region: writes are ignored (no MBC).
        } else if addr < 0xa000 {
            self.gpu.write(addr, value);
        } else if addr < 0xc000 {
            // absent external cartridge RAM
        } else if addr < 0xe000 {
            self.ram[(addr - 0xc000) as usize] = value;
        } else if addr < 0xfe00 {
            self.ram[(addr - 0xe000) as usize] = value;
        } else if addr < 0xfea0 {
            self.gpu.write(addr, value);
        } else if addr < 0xff00 {
            // unusable region
        } else if addr == 0xff00 {
            self.joyp = (value / 16) % 4 * 16;
        } else if addr == 0xff0f {
            self.if_reg = value % 32;
        } else if addr == 0xff46 {
            self.dma(value);
            self.gpu.write(addr, value);
        } else if 0xff40 <= addr && addr <= 0xff4b {
            self.gpu.write(addr, value);
        } else if addr == 0xff50 {
            if self.boot_mapped {
                self.unmap(0x0000);
            }
        } else if 0xff80 <= addr && addr <= 0xfffe {
            self.zero_page[(addr - 0xff80) as usize] = value;
        } else if addr == 0xffff {
            self.ie = value;
        }
    }

    /// While the boot overlay is mapped, a read below 0x100 returns the
    /// boot ROM's byte.
    pub proof fn lemma_boot_overlay_read(self, addr: u16)
        requires
            self.wf(),
            self.boot_mapped,
            addr < 0x100,
        ensures
            self.load_spec(addr) == self.mappings[0].rom.read_spec(addr),
    {
        assert(mapping_contains(self.mappings@[0], addr));
    }

    /// After the write to 0xFF50, the overlay is unmapped for good and a
    /// read below 0x100 falls through to the image mapped beneath it.
    pub proof fn lemma_boot_unmap_read(self, m1: Memory, value: u8, addr: u16)
        requires
            self.wf(),
            m1.wf(),
            self.boot_mapped,
            Memory::write_effect(self, m1, 0xff50, value),
            self.mappings@.len() == 2,
            self.mappings@[1].start == 0,
            addr < 0x100,
            addr < self.mappings@[1].rom.mem.len(),
        ensures
            !m1.boot_mapped,
            m1.load_spec(addr) == self.mappings@[1].rom.read_spec(addr),
    {
        assert(m1.mappings@ == self.mappings@.remove(0));
        assert(m1.mappings@[0] == self.mappings@[1]);
        assert(mapping_contains(m1.mappings@[0], addr));
    }

    /// Press buttons: OR the given bits into the matrix state. A button
    /// going from released to pressed requests a Joypad interrupt.
    pub fn set_joy_state(&mut self, action: u8, direction: u8)
        requires
            old(self).wf(),
            action < 16,
            direction < 16,
        ensures
            final(self).wf(),
            *final(self) == (Memory {
                joy_action: old(self).joy_action | action,
                joy_direction: old(self).joy_direction | direction,
                if_reg: if (old(self).joy_action | action) != old(self).joy_action || (old(
                    self,
                ).joy_direction | direction) != old(self).joy_direction {
                    with_bit(old(self).if_reg, 16)
                } else {
                    old(self).if_reg
                },
                ..*old(self)
            }),
    {
        proof {
            lemma_nibble_ops(self.joy_action, action);
            lemma_nibble_ops(self.joy_direction, direction);
        }
        let new_action: u8 = self.joy_action | action;
        let new_direction: u8 = self.joy_direction | direction;
        let pressed: bool = new_action != self.joy_action || new_direction != self.joy_direction;
        self.joy_action = new_action;
        self.joy_direction = new_direction;
        if pressed {
            self.request_interrupt(Interrupt::Joypad);
        }
    }

    /// Release buttons: clear the given bits in the matrix state.
    pub fn unset_joy_state(&mut self, action: u8, direction: u8)
        requires
            old(self).wf(),
            action < 16,
            direction < 16,
        ensures
            final(self).wf(),
            *final(self) == (Memory {
                joy_action: old(self).joy_action & !action,
                joy_direction: old(self).joy_direction & !direction,
                ..*old(self)
            }),
    {
        proof {
            lemma_nibble_ops(self.joy_action, action);
            lemma_nibble_ops(self.joy_direction, direction);
        }
        self.joy_action = self.joy_action & !action;
        self.joy_direction = self.joy_direction & !direction;
    }
}

} // verus!

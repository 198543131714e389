//! The composed machine: one CPU over one bus, driven a step at a time.
//! The host loop only runs `step`, presents the framebuffer after a
//! VBlank, and feeds button events in between.
use vstd::prelude::*;

verus! {

use crate::cpu::Cpu;
use crate::cpu::step_effect;
use crate::gpu::Gpu;
use crate::gpu::Interrupt;
use crate::gpu::tick_effect;
use crate::input::Input;
use crate::input::JoypadButton;
use crate::input::action_mask;
use crate::input::direction_mask;
use crate::memory::Memory;
use crate::memory::Rom;
use crate::memory::with_bit;

/// Why a pair of ROM images cannot make a machine.
#[derive(Clone, Copy, Debug, PartialEq, Eq, Structural)]
pub enum RomError {
    /// A boot ROM must be exactly 256 bytes.
    BootRomSize,
    /// A cartridge must reach past its header, 0x150 bytes.
    CartridgeTooSmall,
    /// A flat ROM-only cartridge fits in 32 KiB.
    CartridgeTooLarge,
}

/// IF after the PPU's requests are posted: the VBlank bit when any
/// VBlank began, then the STAT bit when the STAT line rose.
pub open spec fn posted_if(if0: u8, vb: u32, st: u32) -> u8 {
    let with_vb = if vb > 0 {
        with_bit(if0, 1)
    } else {
        if0
    };
    if st > 0 {
        with_bit(with_vb, 2)
    } else {
        with_vb
    }
}

/// A CPU wired to its bus.
pub struct GameBoy {
    /// The processor.
    pub cpu: Cpu,
    /// The bus, owning the PPU and all memories.
    pub mem: Memory,
}

impl GameBoy {
    /// A well-formed machine.
    pub open spec fn wf(self) -> bool {
        self.cpu.wf() && self.mem.wf()
    }

    /// Build a machine from an optional boot ROM and a cartridge image.
    /// The boot ROM, when given, must be exactly 256 bytes and overlays
    /// the cartridge until 0xFF50 is written; without one the CPU starts
    /// in the handoff state the boot ROM would have left. The cartridge
    /// must hold a full header and fit the flat 32 KiB ROM space.
    pub fn new(boot_rom: Option<Vec<u8>>, cartridge: Vec<u8>) -> (r: Result<GameBoy, RomError>)
        ensures
            match r {
                Result::Ok(gb) => {
                    &&& (boot_rom matches Option::Some(b) ==> b.len() == 0x100)
                    &&& 0x150 <= cartridge.len() <= 0x8000
                    &&& gb.wf()
                    &&& gb.mem.boot_mapped == (boot_rom is Some)
                    &&& (boot_rom matches Option::Some(b) ==> gb.mem.mappings@.len() == 2
                        && gb.mem.mappings@[0] == (crate::memory::Mapping {
                        start: 0,
                        rom: Rom { mem: b },
                    }) && gb.mem.mappings@[1] == (crate::memory::Mapping {
                        start: 0,
                        rom: Rom { mem: cartridge },
                    }) && crate::cpu::power_on_state(gb.cpu))
                    &&& (boot_rom is None ==> gb.mem.mappings@.len() == 1 && gb.mem.mappings@[0]
                        == (crate::memory::Mapping { start: 0, rom: Rom { mem: cartridge } })
                        && crate::cpu::handoff_state(gb.cpu))
                },
                Result::Err(e) => {
                    &&& (e == RomError::BootRomSize <==> (boot_rom matches Option::Some(b)
                        && b.len() != 0x100))
                    &&& (e == RomError::CartridgeTooSmall ==> cartridge.len() < 0x150)
                    &&& (e == RomError::CartridgeTooLarge ==> cartridge.len() > 0x8000)
                },
            },
            r is Err <==> ((boot_rom matches Option::Some(b) && b.len() != 0x100)
                || cartridge.len() < 0x150 || cartridge.len() > 0x8000),
    {
        let has_boot: bool = boot_rom.is_some();
        if let Option::Some(ref b) = boot_rom {
            if b.len() != 0x100 {
                return Result::Err(RomError::BootRomSize);
            }
        }
        if cartridge.len() < 0x150 {
            return Result::Err(RomError::CartridgeTooSmall);
        }
        if cartridge.len() > 0x8000 {
            return Result::Err(RomError::CartridgeTooLarge);
        }
        let mut mem: Memory = Memory::new(Gpu::new());
        let cpu: Cpu = match boot_rom {
            Option::Some(b) => {
                mem.map_boot(Rom::new(b));
                Cpu::new()
            },
            Option::None => Cpu::new_initialized(),
        };
        mem.map(0, Rom::new(cartridge));
        Result::Ok(GameBoy { cpu, mem })
    }

    /// One machine step: run the CPU for one instruction or interrupt
    /// dispatch, advance the PPU by the cycles consumed, and post any
    /// VBlank or STAT request into IF. Returns the cycles; the whole
    /// transition is the CPU's `step_effect` chained with the PPU's
    /// `tick_effect` and the interrupt posting.
    pub fn step(&mut self) -> (cycles: u8)
        requires
            old(self).wf(),
        ensures
            final(self).wf(),
            4 <= cycles <= 24 && cycles % 4 == 0,
            crate::flags::flags_wf(final(self).cpu.regs.flags),
            exists|cm: Cpu, mm: Memory, vb: u32, st: u32|
                #[trigger] step_effect(old(self).cpu, old(self).mem, cm, mm, cycles)
                    && #[trigger] tick_effect(
                    mm.gpu,
                    final(self).mem.gpu,
                    cycles as u32,
                    vb,
                    st,
                ) && final(self).cpu == cm && final(self).mem == (Memory {
                    gpu: final(self).mem.gpu,
                    if_reg: posted_if(mm.if_reg, vb, st),
                    ..mm
                }),
    {
        let c: u8 = self.cpu.step(&mut self.mem);
        let ghost cm = self.cpu;
        let ghost mm = self.mem;
        let r: (u32, u32) = self.mem.gpu.tick(c as u32);
        if r.0 > 0 {
            self.mem.request_interrupt(Interrupt::VBlank);
        }
        if r.1 > 0 {
            self.mem.request_interrupt(Interrupt::Status);
        }
        proof {
            assert(step_effect(old(self).cpu, old(self).mem, cm, mm, c));
            assert(tick_effect(mm.gpu, self.mem.gpu, c as u32, r.0, r.1));
            assert(self.mem == (Memory {
                gpu: self.mem.gpu,
                if_reg: posted_if(mm.if_reg, r.0, r.1),
                ..mm
            }));
        }
        c
    }

    /// Feed one button event into the joypad matrix.
    pub fn apply_input(&mut self, input: Input)
        requires
            old(self).wf(),
        ensures
            final(self).wf(),
            match input {
                Input::JoypadPress(b) => *final(self) == (GameBoy {
                    mem: Memory {
                        joy_action: old(self).mem.joy_action | action_mask(b),
                        joy_direction: old(self).mem.joy_direction | direction_mask(b),
                        if_reg: if (old(self).mem.joy_action | action_mask(b)) != old(
                            self,
                        ).mem.joy_action || (old(self).mem.joy_direction | direction_mask(b))
                            != old(self).mem.joy_direction {
                            with_bit(old(self).mem.if_reg, 16)
                        } else {
                            old(self).mem.if_reg
                        },
                        ..old(self).mem
                    },
                    ..*old(self)
                }),
                Input::JoypadRelease(b) => *final(self) == (GameBoy {
                    mem: Memory {
                        joy_action: old(self).mem.joy_action & !action_mask(b),
                        joy_direction: old(self).mem.joy_direction & !direction_mask(b),
                        ..old(self).mem
                    },
                    ..*old(self)
                }),
            },
    {
        match input {
            Input::JoypadPress(b) => {
                let masks: (u8, u8) = crate::input::button_masks(b);
                self.mem.set_joy_state(masks.0, masks.1);
            },
            Input::JoypadRelease(b) => {
                let masks: (u8, u8) = crate::input::button_masks(b);
                self.mem.unset_joy_state(masks.0, masks.1);
            },
        }
    }
}

} // verus!

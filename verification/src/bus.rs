//! The system bus: decodes the top byte of every address, routes the
//! access to BIOS, work RAM, I/O, graphics memory or the cartridge, and
//! synthesises open-bus values from the CPU's pipeline state.

use vstd::prelude::*;

use crate::cartridge::Cartridge;
use crate::cartridge::CartridgeView;
use crate::cpu::CpuPipelineRegs;
use crate::cpu::CpuState;
use crate::cycles::spec_gamepak_entries;
use crate::cycles::CycleLookupTables;
use crate::cycles::PAGE_GAMEPAK_WS0;
use crate::iodev::IoDevices;
use crate::iodev::IO_REGS_SIZE;
use crate::iodev::WAITCNT_OFFSET;
use crate::mem::page;
use crate::mem::read_half;
use crate::mem::read_word;
use crate::mem::spec_half_at;
use crate::mem::spec_page;
use crate::mem::spec_store_half;
use crate::mem::spec_store_word;
use crate::mem::spec_word_at;
use crate::mem::write_byte;
use crate::mem::write_half;
use crate::mem::write_word;
use crate::mem::Addr;
use crate::mem::MemoryAccessType;
use crate::mem::MemoryAccessWidth;
use crate::waitcnt::WaitControl;

verus! {

pub const BIOS_SIZE: usize = 0x4000;

pub const WORK_RAM_SIZE: usize = 0x40000;

pub const INTERNAL_RAM_SIZE: usize = 0x8000;

pub const PALRAM_SIZE: usize = 0x400;

pub const VRAM_SIZE: usize = 0x18000;

pub const OAM_SIZE: usize = 0x400;

/// The remapped I/O offset of an 8-bit access: the register block is
/// mirrored every kibibyte, except that an address whose low 16 bits are
/// `0x8000` reaches the isolated post-boot flag area at offset `0x800`.
pub open spec fn spec_io_off_8(addr: Addr) -> int {
    if addr & 0xFFFF == 0x8000 {
        0x800
    } else {
        (addr & 0x3FF) as int
    }
}

/// The remapped I/O offset of a 16-bit access.
pub open spec fn spec_io_off_16(addr: Addr) -> int {
    if addr & 0xFFFE == 0x8000 {
        0x800
    } else {
        (addr & 0x3FE) as int
    }
}

/// The remapped I/O offset of a 32-bit access.
pub open spec fn spec_io_off_32(addr: Addr) -> int {
    if addr & 0xFFFC == 0x8000 {
        0x800
    } else {
        (addr & 0x3FC) as int
    }
}

/// The VRAM byte a raw offset lands on: 96 KiB out of a 128 KiB window,
/// whose second half mirrors bytes `0x10000..0x18000`.
pub open spec fn spec_vram_fold(off: int) -> int {
    if off >= 0x18000 {
        off - 0x8000
    } else {
        off
    }
}

/// Mathematical model of the bus state an access can observe or change.
#[verifier::ext_equal]
pub ghost struct SysBusView {
    pub cpu: CpuPipelineRegs,
    pub bios_value: u32,
    pub bios: Seq<u8>,
    pub ewram: Seq<u8>,
    pub iwram: Seq<u8>,
    pub io_regs: Seq<u8>,
    pub palram: Seq<u8>,
    pub vram: Seq<u8>,
    pub oam: Seq<u8>,
    pub cart: CartridgeView,
}

impl SysBusView {
    pub open spec fn wf(self) -> bool {
        &&& self.bios.len() == BIOS_SIZE
        &&& self.ewram.len() == WORK_RAM_SIZE
        &&& self.iwram.len() == INTERNAL_RAM_SIZE
        &&& self.io_regs.len() == IO_REGS_SIZE
        &&& self.palram.len() == PALRAM_SIZE
        &&& self.vram.len() == VRAM_SIZE
        &&& self.oam.len() == OAM_SIZE
        &&& self.cart.wf()
    }

    /// The half-word an open-bus construction reads from inside BIOS or
    /// OAM at `pc + 6`. A BIOS read honours BIOS protection but leaves
    /// the protection cache untouched, and one past the end of BIOS falls
    /// back to the prefetched opcode: both keep the construction a plain
    /// function of the bus state instead of a nested bus access.
    pub open spec fn interior_half(self, addr: Addr, pc_page: u32) -> u16 {
        if pc_page == 0 {
            if addr <= 0x3FFF {
                let w = if self.cpu.pc < 0x4000 {
                    spec_word_at(self.bios, (addr & 0x3FFC) as int)
                } else {
                    self.bios_value
                };
                ((w >> (((addr & 2) * 8) as u32)) & 0xFFFF) as u16
            } else {
                (self.cpu.prefetched_opcode & 0xFFFF) as u16
            }
        } else {
            spec_half_at(self.oam, (addr & 0x3FE) as int)
        }
    }

    /// The 32-bit value the bus floats to when no device answers,
    /// reconstructed from the CPU's pipeline: in ARM state the prefetched
    /// opcode; in THUMB state two 16-bit half-words combined according to
    /// the page the program counter is in.
    pub open spec fn open_bus_raw(self) -> u32 {
        if self.cpu.state == CpuState::ARM {
            self.cpu.prefetched_opcode
        } else {
            let decoded = self.cpu.decoded_opcode & 0xFFFF;
            let prefetched = self.cpu.prefetched_opcode & 0xFFFF;
            let p = spec_page(self.cpu.pc);
            if p == 0x02 || p == 0x05 || p == 0x06 || (0x08 <= p && p <= 0x0D) {
                ((prefetched << 16) | prefetched) as u32
            } else if p == 0x00 || p == 0x07 {
                if self.cpu.pc & 3 == 0 {
                    (((self.interior_half((self.cpu.pc + 6) as u32, p) as u32) << 16)
                        | prefetched) as u32
                } else {
                    ((prefetched << 16) | decoded) as u32
                }
            } else if p == 0x03 {
                if self.cpu.pc & 3 == 0 {
                    ((decoded << 16) | prefetched) as u32
                } else {
                    ((prefetched << 16) | decoded) as u32
                }
            } else {
                ((prefetched << 16) | prefetched) as u32
            }
        }
    }

    /// The open-bus value rotated into place for the given address.
    pub open spec fn open_bus(self, addr: Addr) -> u32 {
        (self.open_bus_raw() >> (((addr & 3) * 8) as u32)) as u32
    }

    /// Whether a BIOS-page read is honoured: the program counter must
    /// still be inside BIOS.
    pub open spec fn bios_readable(self) -> bool {
        self.cpu.pc < 0x4000
    }

    /// The protected BIOS word an in-range BIOS read goes through: the
    /// real word while the CPU runs inside BIOS, else the last word a
    /// BIOS fetch returned.
    pub open spec fn bios_word(self, addr: Addr) -> u32 {
        if self.bios_readable() {
            spec_word_at(self.bios, (addr & 0x3FFC) as int)
        } else {
            self.bios_value
        }
    }

    /// What an 8-bit read returns.
    pub open spec fn read_8_of(self, addr: Addr) -> u8 {
        let p = spec_page(addr);
        if p == 0x00 {
            if addr > 0x3FFF {
                self.open_bus(addr) as u8
            } else {
                ((self.bios_word(addr) >> (((addr & 3) * 8) as u32)) & 0xFF) as u8
            }
        } else if p == 0x02 {
            self.ewram[(addr & 0x3FFFF) as int]
        } else if p == 0x03 {
            self.iwram[(addr & 0x7FFF) as int]
        } else if p == 0x04 {
            self.io_regs[spec_io_off_8(addr)]
        } else if p == 0x05 {
            self.palram[(addr & 0x3FF) as int]
        } else if p == 0x06 {
            self.vram[spec_vram_fold((addr & 0x1FFFF) as int)]
        } else if p == 0x07 {
            self.oam[(addr & 0x3FF) as int]
        } else if 0x08 <= p && p <= 0x0F {
            self.cart.read_8_of(addr)
        } else {
            self.open_bus(addr) as u8
        }
    }

    /// The bus after an 8-bit read: an honoured BIOS read refreshes the
    /// cached BIOS word; nothing else changes.
    pub open spec fn read_8_step(self, addr: Addr) -> SysBusView {
        let p = spec_page(addr);
        if p == 0x00 && addr <= 0x3FFF && self.bios_readable() {
            SysBusView { bios_value: spec_word_at(self.bios, (addr & 0x3FFC) as int), ..self }
        } else {
            self
        }
    }

    /// What a 16-bit read returns.
    pub open spec fn read_16_of(self, addr: Addr) -> u16 {
        let p = spec_page(addr);
        if p == 0x00 {
            if addr > 0x3FFF {
                self.open_bus(addr) as u16
            } else {
                ((self.bios_word(addr) >> (((addr & 2) * 8) as u32)) & 0xFFFF) as u16
            }
        } else if p == 0x02 {
            spec_half_at(self.ewram, (addr & 0x3FFFE) as int)
        } else if p == 0x03 {
            spec_half_at(self.iwram, (addr & 0x7FFE) as int)
        } else if p == 0x04 {
            spec_half_at(self.io_regs, spec_io_off_16(addr))
        } else if p == 0x05 {
            spec_half_at(self.palram, (addr & 0x3FE) as int)
        } else if p == 0x06 {
            spec_half_at(self.vram, spec_vram_fold((addr & 0x1FFFE) as int))
        } else if p == 0x07 {
            spec_half_at(self.oam, (addr & 0x3FE) as int)
        } else if 0x08 <= p && p <= 0x0F {
            self.cart.read_16_of(addr & 0xFFFFFFFE)
        } else {
            self.open_bus(addr) as u16
        }
    }

    /// The bus after a 16-bit read: an honoured BIOS read refreshes the
    /// cache, an EEPROM read clocks the controller.
    pub open spec fn read_16_step(self, addr: Addr) -> SysBusView {
        let p = spec_page(addr);
        if p == 0x00 && addr <= 0x3FFF && self.bios_readable() {
            SysBusView { bios_value: spec_word_at(self.bios, (addr & 0x3FFC) as int), ..self }
        } else if 0x08 <= p <= 0x0F {
            SysBusView { cart: self.cart.read_16_step(addr & 0xFFFFFFFE), ..self }
        } else {
            self
        }
    }

    /// What a 32-bit read returns.
    pub open spec fn read_32_of(self, addr: Addr) -> u32 {
        let p = spec_page(addr);
        if p == 0x00 {
            if addr > 0x3FFF {
                self.open_bus(addr)
            } else {
                self.bios_word(addr)
            }
        } else if p == 0x02 {
            spec_word_at(self.ewram, (addr & 0x3FFFC) as int)
        } else if p == 0x03 {
            spec_word_at(self.iwram, (addr & 0x7FFC) as int)
        } else if p == 0x04 {
            spec_word_at(self.io_regs, spec_io_off_32(addr))
        } else if p == 0x05 {
            spec_word_at(self.palram, (addr & 0x3FC) as int)
        } else if p == 0x06 {
            spec_word_at(self.vram, spec_vram_fold((addr & 0x1FFFC) as int))
        } else if p == 0x07 {
            spec_word_at(self.oam, (addr & 0x3FC) as int)
        } else if 0x08 <= p && p <= 0x0F {
            self.cart.read_32_of(addr & 0xFFFFFFFC)
        } else {
            self.open_bus(addr)
        }
    }

    /// The bus after a 32-bit read.
    pub open spec fn read_32_step(self, addr: Addr) -> SysBusView {
        let p = spec_page(addr);
        if p == 0x00 && addr <= 0x3FFF && self.bios_readable() {
            SysBusView { bios_value: spec_word_at(self.bios, (addr & 0x3FFC) as int), ..self }
        } else if 0x08 <= p <= 0x0F {
            SysBusView { cart: self.cart.read_32_step(addr & 0xFFFFFFFC), ..self }
        } else {
            self
        }
    }

    /// The bus memories after an 8-bit write. BIOS and the ROM waitstate
    /// mirrors the hardware leaves unrouted drop the write.
    pub open spec fn write_8_step(self, addr: Addr, value: u8) -> SysBusView {
        let p = spec_page(addr);
        if p == 0x02 {
            SysBusView { ewram: self.ewram.update((addr & 0x3FFFF) as int, value), ..self }
        } else if p == 0x03 {
            SysBusView { iwram: self.iwram.update((addr & 0x7FFF) as int, value), ..self }
        } else if p == 0x04 {
            SysBusView { io_regs: self.io_regs.update(spec_io_off_8(addr), value), ..self }
        } else if p == 0x05 {
            SysBusView { palram: self.palram.update((addr & 0x3FF) as int, value), ..self }
        } else if p == 0x06 {
            SysBusView {
                vram: self.vram.update(spec_vram_fold((addr & 0x1FFFF) as int), value),
                ..self
            }
        } else if p == 0x07 {
            SysBusView { oam: self.oam.update((addr & 0x3FF) as int, value), ..self }
        } else if p == 0x08 || p == 0x0D || p == 0x0E || p == 0x0F {
            SysBusView { cart: self.cart.write_8_step(addr, value), ..self }
        } else {
            self
        }
    }

    /// The bus memories after a 16-bit write, at the address with its low
    /// bit cleared.
    pub open spec fn write_16_step(self, addr: Addr, value: u16) -> SysBusView {
        let p = spec_page(addr);
        if p == 0x02 {
            SysBusView {
                ewram: spec_store_half(self.ewram, (addr & 0x3FFFE) as int, value),
                ..self
            }
        } else if p == 0x03 {
            SysBusView {
                iwram: spec_store_half(self.iwram, (addr & 0x7FFE) as int, value),
                ..self
            }
        } else if p == 0x04 {
            SysBusView {
                io_regs: spec_store_half(self.io_regs, spec_io_off_16(addr), value),
                ..self
            }
        } else if p == 0x05 {
            SysBusView {
                palram: spec_store_half(self.palram, (addr & 0x3FE) as int, value),
                ..self
            }
        } else if p == 0x06 {
            SysBusView {
                vram: spec_store_half(self.vram, spec_vram_fold((addr & 0x1FFFE) as int), value),
                ..self
            }
        } else if p == 0x07 {
            SysBusView { oam: spec_store_half(self.oam, (addr & 0x3FE) as int, value), ..self }
        } else if p == 0x08 || p == 0x0D || p == 0x0E || p == 0x0F {
            SysBusView { cart: self.cart.write_16_step(addr & 0xFFFFFFFE, value), ..self }
        } else {
            self
        }
    }

    /// The bus memories after a 32-bit write, at the address with its two
    /// low bits cleared.
    pub open spec fn write_32_step(self, addr: Addr, value: u32) -> SysBusView {
        let p = spec_page(addr);
        if p == 0x02 {
            SysBusView {
                ewram: spec_store_word(self.ewram, (addr & 0x3FFFC) as int, value),
                ..self
            }
        } else if p == 0x03 {
            SysBusView {
                iwram: spec_store_word(self.iwram, (addr & 0x7FFC) as int, value),
                ..self
            }
        } else if p == 0x04 {
            SysBusView {
                io_regs: spec_store_word(self.io_regs, spec_io_off_32(addr), value),
                ..self
            }
        } else if p == 0x05 {
            SysBusView {
                palram: spec_store_word(self.palram, (addr & 0x3FC) as int, value),
                ..self
            }
        } else if p == 0x06 {
            SysBusView {
                vram: spec_store_word(self.vram, spec_vram_fold((addr & 0x1FFFC) as int), value),
                ..self
            }
        } else if p == 0x07 {
            SysBusView { oam: spec_store_word(self.oam, (addr & 0x3FC) as int, value), ..self }
        } else if p == 0x08 || p == 0x0D || p == 0x0E || p == 0x0F {
            SysBusView { cart: self.cart.write_32_step(addr & 0xFFFFFFFC, value), ..self }
        } else {
            self
        }
    }

    /// Whether an 8-bit write lands on a byte of the wait-control
    /// register.
    pub open spec fn waitcnt_touched_8(self, addr: Addr) -> bool {
        spec_page(addr) == 0x04 && (spec_io_off_8(addr) == WAITCNT_OFFSET || spec_io_off_8(addr)
            == WAITCNT_OFFSET + 1)
    }

    /// Whether a 16-bit write lands on the wait-control register.
    pub open spec fn waitcnt_touched_16(self, addr: Addr) -> bool {
        spec_page(addr) == 0x04 && spec_io_off_16(addr) == WAITCNT_OFFSET
    }

    /// Whether a 32-bit write covers the wait-control register.
    pub open spec fn waitcnt_touched_32(self, addr: Addr) -> bool {
        spec_page(addr) == 0x04 && spec_io_off_32(addr) == WAITCNT_OFFSET
    }

    /// The wait-control word the register file holds.
    pub open spec fn waitcnt_of(self) -> WaitControl {
        WaitControl { raw: spec_half_at(self.io_regs, WAITCNT_OFFSET as int) }
    }
}

/// The system bus: every memory the CPU can reach, the cartridge, the
/// cycle tables and the cached state open-bus and BIOS protection need.
#[derive(Clone, Debug)]
pub struct SysBus {
    /// Snapshot of the CPU pipeline registers, refreshed by the driver
    /// through `init`; it stands in for a back-reference to the CPU.
    pub cpu: CpuPipelineRegs,
    /// The last word a BIOS fetch returned, replayed while the program
    /// counter is outside BIOS.
    pub bios_value: u32,
    pub io: IoDevices,
    pub bios: Vec<u8>,
    pub onboard_work_ram: Vec<u8>,
    pub internal_work_ram: Vec<u8>,
    pub palram: Vec<u8>,
    pub vram: Vec<u8>,
    pub oam: Vec<u8>,
    pub cartridge: Cartridge,
    pub cycle_luts: CycleLookupTables,
}

impl View for SysBus {
    type V = SysBusView;

    open spec fn view(&self) -> SysBusView {
        SysBusView {
            cpu: self.cpu,
            bios_value: self.bios_value,
            bios: self.bios@,
            ewram: self.onboard_work_ram@,
            iwram: self.internal_work_ram@,
            io_regs: self.io.regs@,
            palram: self.palram@,
            vram: self.vram@,
            oam: self.oam@,
            cart: self.cartridge@,
        }
    }
}

/// Mask and shift bounds the address decoding leans on.
proof fn lemma_addr_masks(a: u32)
    by (bit_vector)
    ensures
        a & 0x3FFFF < 0x40000,
        a & 0x3FFFE < 0x3FFFF && (a & 0x3FFFE) & 1 == 0,
        a & 0x3FFFC < 0x3FFFD && (a & 0x3FFFC) & 3 == 0,
        a & 0x7FFF < 0x8000,
        a & 0x7FFE < 0x7FFF && (a & 0x7FFE) & 1 == 0,
        a & 0x7FFC < 0x7FFD && (a & 0x7FFC) & 3 == 0,
        a & 0x3FF < 0x400,
        a & 0x3FE < 0x3FF && (a & 0x3FE) & 1 == 0,
        a & 0x3FC < 0x3FD && (a & 0x3FC) & 3 == 0,
        a & 0x7FF < 0x800,
        a & 0x7FE < 0x7FF && (a & 0x7FE) & 1 == 0,
        a & 0x7FC < 0x7FD && (a & 0x7FC) & 3 == 0,
        a & 0x1FFFF < 0x20000,
        a & 0x1FFFE < 0x1FFFF && (a & 0x1FFFE) & 1 == 0,
        a & 0x1FFFC < 0x1FFFD && (a & 0x1FFFC) & 3 == 0,
        a & 0x1FFFE < 0x18000 ==> (a & 0x1FFFE) + 2 <= 0x18000,
        a & 0x1FFFE >= 0x18000 ==> 0x8000 <= (a & 0x1FFFE) && (a & 0x1FFFE) - 0x8000 + 2
            <= 0x18000,
        a & 0x1FFFC < 0x18000 ==> (a & 0x1FFFC) + 4 <= 0x18000,
        a & 0x1FFFC >= 0x18000 ==> 0x8000 <= (a & 0x1FFFC) && (a & 0x1FFFC) - 0x8000 + 4
            <= 0x18000,
        a & 0x3FFC < 0x3FFD && (a & 0x3FFC) & 3 == 0,
        a & 3 < 4,
        a & 2 <= 2,
        a & 1 <= 1,
        (a & 0xFFFFFFFE) & 1 == 0,
        (a & 0xFFFFFFFC) & 3 == 0,
        a >> 24 == (a & 0xFFFFFFFE) >> 24,
        a >> 24 == (a & 0xFFFFFFFC) >> 24,
        a <= 0x3FFF ==> a & 0x3FFC <= a,
        a >> 24 <= 7 ==> a <= 0x07FFFFFF,
{
}

fn io_off_8(addr: Addr) -> (r: usize)
    ensures
        r == spec_io_off_8(addr),
        r <= 0x800,
{
    proof {
        lemma_addr_masks(addr);
    }
    if addr & 0xFFFF == 0x8000 {
        0x800
    } else {
        (addr & 0x3FF) as usize
    }
}

fn io_off_16(addr: Addr) -> (r: usize)
    ensures
        r == spec_io_off_16(addr),
        r <= 0x800,
{
    proof {
        lemma_addr_masks(addr);
    }
    if addr & 0xFFFE == 0x8000 {
        0x800
    } else {
        (addr & 0x3FE) as usize
    }
}

fn io_off_32(addr: Addr) -> (r: usize)
    ensures
        r == spec_io_off_32(addr),
        r <= 0x800,
{
    proof {
        lemma_addr_masks(addr);
    }
    if addr & 0xFFFC == 0x8000 {
        0x800
    } else {
        (addr & 0x3FC) as usize
    }
}

fn vram_fold_8(addr: Addr) -> (r: usize)
    ensures
        r == spec_vram_fold((addr & 0x1FFFF) as int),
        r < VRAM_SIZE,
{
    proof {
        lemma_addr_masks(addr);
    }
    let off: usize = (addr & 0x1FFFF) as usize;
    if off >= 0x18000 {
        off - 0x8000
    } else {
        off
    }
}

fn vram_fold_16(addr: Addr) -> (r: usize)
    ensures
        r == spec_vram_fold((addr & 0x1FFFE) as int),
        r + 2 <= VRAM_SIZE,
{
    proof {
        lemma_addr_masks(addr);
    }
    let off: usize = (addr & 0x1FFFE) as usize;
    if off >= 0x18000 {
        off - 0x8000
    } else {
        off
    }
}

fn vram_fold_32(addr: Addr) -> (r: usize)
    ensures
        r == spec_vram_fold((addr & 0x1FFFC) as int),
        r + 4 <= VRAM_SIZE,
{
    proof {
        lemma_addr_masks(addr);
    }
    let off: usize = (addr & 0x1FFFC) as usize;
    if off >= 0x18000 {
        off - 0x8000
    } else {
        off
    }
}

impl SysBus {
    /// Builds the bus around a 16 KiB BIOS image and a cartridge, with
    /// zeroed RAM and the cycle tables programmed from the I/O block's
    /// current wait-control word.
    pub fn new(io: IoDevices, bios_rom: Vec<u8>, cartridge: Cartridge) -> (r: SysBus)
        requires
            io.wf(),
            bios_rom@.len() == BIOS_SIZE,
            cartridge@.wf(),
        ensures
            r@.wf(),
            r@.cpu == (CpuPipelineRegs {
                pc: 0,
                state: CpuState::ARM,
                prefetched_opcode: 0,
                decoded_opcode: 0,
            }),
            r@.bios_value == 0,
            r@.bios == bios_rom@,
            r@.ewram =~= Seq::<u8>::new(WORK_RAM_SIZE as nat, |i: int| 0u8),
            r@.iwram =~= Seq::<u8>::new(INTERNAL_RAM_SIZE as nat, |i: int| 0u8),
            r@.palram =~= Seq::<u8>::new(PALRAM_SIZE as nat, |i: int| 0u8),
            r@.vram =~= Seq::<u8>::new(VRAM_SIZE as nat, |i: int| 0u8),
            r@.oam =~= Seq::<u8>::new(OAM_SIZE as nat, |i: int| 0u8),
            r@.io_regs == io.regs@,
            r@.cart == cartridge@,
            spec_gamepak_entries(r.cycle_luts, io.spec_waitcnt()),
            forall|p: int| 0 <= p < PAGE_GAMEPAK_WS0 ==> #[trigger] r.cycle_luts.n_cycles16@[p]
                == spec_ram_n16(p),
            forall|p: int| 0 <= p < PAGE_GAMEPAK_WS0 ==> #[trigger] r.cycle_luts.s_cycles16@[p]
                == spec_ram_n16(p),
            forall|p: int| 0 <= p < PAGE_GAMEPAK_WS0 ==> #[trigger] r.cycle_luts.n_cycles32@[p]
                == spec_ram_n32(p),
            forall|p: int| 0 <= p < PAGE_GAMEPAK_WS0 ==> #[trigger] r.cycle_luts.s_cycles32@[p]
                == spec_ram_n32(p),
    {
        let mut luts = CycleLookupTables::default();
        luts.init();
        let w = io.waitcnt();
        luts.update_gamepak_waitstates(w);
        SysBus {
            cpu: CpuPipelineRegs::new(),
            bios_value: 0,
            io,
            bios: bios_rom,
            onboard_work_ram: zeroed(WORK_RAM_SIZE),
            internal_work_ram: zeroed(INTERNAL_RAM_SIZE),
            palram: zeroed(PALRAM_SIZE),
            vram: zeroed(VRAM_SIZE),
            oam: zeroed(OAM_SIZE),
            cartridge,
            cycle_luts: luts,
        }
    }

    /// Hands the bus the CPU pipeline registers open-bus reads and BIOS
    /// protection consult; the driver calls this whenever they change.
    pub fn init(&mut self, cpu: CpuPipelineRegs)
        ensures
            final(self)@ =~~= (SysBusView { cpu, ..old(self)@ }),
            final(self).cycle_luts == old(self).cycle_luts,
    {
        self.cpu = cpu;
    }

    /// Reprograms the gamepak cycle tables from a freshly written
    /// wait-control word.
    pub fn on_waitcnt_written(&mut self, waitcnt: WaitControl)
        ensures
            final(self)@ == old(self)@,
            spec_gamepak_entries(final(self).cycle_luts, waitcnt),
            forall|p: int| 0 <= p < PAGE_GAMEPAK_WS0
                ==> #[trigger] final(self).cycle_luts.n_cycles16@[p]
                == old(self).cycle_luts.n_cycles16@[p],
            forall|p: int| 0 <= p < PAGE_GAMEPAK_WS0
                ==> #[trigger] final(self).cycle_luts.s_cycles16@[p]
                == old(self).cycle_luts.s_cycles16@[p],
            forall|p: int| 0 <= p < PAGE_GAMEPAK_WS0
                ==> #[trigger] final(self).cycle_luts.n_cycles32@[p]
                == old(self).cycle_luts.n_cycles32@[p],
            forall|p: int| 0 <= p < PAGE_GAMEPAK_WS0
                ==> #[trigger] final(self).cycle_luts.s_cycles32@[p]
                == old(self).cycle_luts.s_cycles32@[p],
    {
        self.cycle_luts.update_gamepak_waitstates(waitcnt);
    }

    /// Looks up the cycle cost of one access: the page's table entry, or
    /// the single base cycle for pages past the address map.
    pub fn get_cycles(
        &self,
        addr: Addr,
        access: MemoryAccessType,
        width: MemoryAccessWidth,
    ) -> (r: usize)
        ensures
            r == spec_get_cycles(self.cycle_luts, addr, access, width),
    {
        let p: u32 = page(addr);
        if p > 0xF {
            return 1;
        }
        let pi: usize = p as usize;
        match width {
            MemoryAccessWidth::MemoryAccess8 | MemoryAccessWidth::MemoryAccess16 => {
                match access {
                    MemoryAccessType::NonSequential => self.cycle_luts.n_cycles16[pi],
                    MemoryAccessType::Sequential => self.cycle_luts.s_cycles16[pi],
                }
            },
            MemoryAccessWidth::MemoryAccess32 => {
                match access {
                    MemoryAccessType::NonSequential => self.cycle_luts.n_cycles32[pi],
                    MemoryAccessType::Sequential => self.cycle_luts.s_cycles32[pi],
                }
            },
        }
    }
}

impl SysBusView {
    /// What a side-effect-free debugger byte read returns: the raw byte
    /// of the region, zero past the end of BIOS or ROM and on unmapped
    /// pages.
    pub open spec fn debug_read_8_of(self, addr: Addr) -> u8 {
        let p = spec_page(addr);
        if p == 0x00 {
            if addr < 0x4000 {
                self.bios[addr as int]
            } else {
                0
            }
        } else if p == 0x02 {
            self.ewram[(addr & 0x3FFFF) as int]
        } else if p == 0x03 {
            self.iwram[(addr & 0x7FFF) as int]
        } else if p == 0x04 {
            self.io_regs[spec_io_off_8(addr)]
        } else if p == 0x05 {
            self.palram[(addr & 0x3FF) as int]
        } else if p == 0x06 {
            self.vram[spec_vram_fold((addr & 0x1FFFF) as int)]
        } else if p == 0x07 {
            self.oam[(addr & 0x3FF) as int]
        } else if 0x08 <= p && p <= 0x0F {
            if (addr & crate::cartridge::ROM_OFFSET_MASK) < self.cart.size {
                self.cart.bytes[(addr & crate::cartridge::ROM_OFFSET_MASK) as int]
            } else {
                0
            }
        } else {
            0
        }
    }
}

/// Bounds of masked values that feed truncating casts.
proof fn lemma_low_masks(x: u32)
    by (bit_vector)
    ensures
        x & 0xFFFF <= 0xFFFF,
        x & 0xFF <= 0xFF,
{
}

impl SysBus {
    fn interior_half(&self, addr: Addr, pc_page: u32) -> (r: u16)
        requires
            self@.wf(),
        ensures
            r == self@.interior_half(addr, pc_page),
    {
        proof {
            lemma_addr_masks(addr);
        }
        if pc_page == 0 {
            if addr <= 0x3FFF {
                let value: u32 = if self.cpu.pc < 0x4000 {
                    read_word(&self.bios, (addr & 0x3FFC) as usize)
                } else {
                    self.bios_value
                };
                proof {
                    lemma_low_masks(value >> ((addr & 2) * 8));
                }
                ((value >> ((addr & 2) * 8)) & 0xFFFF) as u16
            } else {
                proof {
                    lemma_low_masks(self.cpu.prefetched_opcode);
                }
                (self.cpu.prefetched_opcode & 0xFFFF) as u16
            }
        } else {
            read_half(&self.oam, (addr & 0x3FE) as usize)
        }
    }

    fn open_bus_value(&self) -> (r: u32)
        requires
            self@.wf(),
        ensures
            r == self@.open_bus_raw(),
    {
        match self.cpu.state {
            CpuState::ARM => self.cpu.prefetched_opcode,
            CpuState::THUMB => {
                let decoded: u32 = self.cpu.decoded_opcode & 0xFFFF;
                let prefetched: u32 = self.cpu.prefetched_opcode & 0xFFFF;
                let r15: u32 = self.cpu.pc;
                proof {
                    lemma_low_masks(self.cpu.decoded_opcode);
                    lemma_low_masks(self.cpu.prefetched_opcode);
                    lemma_addr_masks(r15);
                }
                let p: u32 = page(r15);
                if p == 0x02 || p == 0x05 || p == 0x06 || (0x08 <= p && p <= 0x0D) {
                    (prefetched << 16u32) | prefetched
                } else if p == 0x00 || p == 0x07 {
                    if r15 & 3 == 0 {
                        let hi: u16 = self.interior_half(r15 + 6, p);
                        ((hi as u32) << 16u32) | prefetched
                    } else {
                        (prefetched << 16u32) | decoded
                    }
                } else if p == 0x03 {
                    if r15 & 3 == 0 {
                        (decoded << 16u32) | prefetched
                    } else {
                        (prefetched << 16u32) | decoded
                    }
                } else {
                    (prefetched << 16u32) | prefetched
                }
            },
        }
    }

    fn open_bus(&self, addr: Addr) -> (r: u32)
        requires
            self@.wf(),
        ensures
            r == self@.open_bus(addr),
    {
        let value: u32 = self.open_bus_value();
        load_shifted(addr, value)
    }

    /// Reads a word, decoding the page: an in-range BIOS read refreshes
    /// the protection cache, unmapped pages float to the open-bus value.
    pub fn read_32(&mut self, addr: Addr) -> (r: u32)
        requires
            old(self)@.wf(),
        ensures
            final(self)@.wf(),
            r == old(self)@.read_32_of(addr),
            final(self)@ =~~= old(self)@.read_32_step(addr),
            final(self).cycle_luts == old(self).cycle_luts,
    {
        proof {
            lemma_addr_masks(addr);
        }
        let p: u32 = page(addr);
        if p == 0x00 {
            if addr > 0x3FFF {
                self.open_bus(addr)
            } else {
                if self.cpu.pc < 0x4000 {
                    let value: u32 = read_word(&self.bios, (addr & 0x3FFC) as usize);
                    self.bios_value = value;
                    value
                } else {
                    self.bios_value
                }
            }
        } else if p == 0x02 {
            read_word(&self.onboard_work_ram, (addr & 0x3FFFC) as usize)
        } else if p == 0x03 {
            read_word(&self.internal_work_ram, (addr & 0x7FFC) as usize)
        } else if p == 0x04 {
            self.io.read_32(io_off_32(addr))
        } else if p == 0x05 {
            read_word(&self.palram, (addr & 0x3FC) as usize)
        } else if p == 0x06 {
            read_word(&self.vram, vram_fold_32(addr))
        } else if p == 0x07 {
            read_word(&self.oam, (addr & 0x3FC) as usize)
        } else if 0x08 <= p && p <= 0x0F {
            self.cartridge.read_32(addr & 0xFFFFFFFC)
        } else {
            self.open_bus(addr)
        }
    }

    /// Reads a half-word, decoding the page as `read_32` does.
    pub fn read_16(&mut self, addr: Addr) -> (r: u16)
        requires
            old(self)@.wf(),
        ensures
            final(self)@.wf(),
            r == old(self)@.read_16_of(addr),
            final(self)@ =~~= old(self)@.read_16_step(addr),
            final(self).cycle_luts == old(self).cycle_luts,
    {
        proof {
            lemma_addr_masks(addr);
        }
        let p: u32 = page(addr);
        if p == 0x00 {
            if addr > 0x3FFF {
                let v: u32 = self.open_bus(addr);
                #[verifier::truncate] (v as u16)
            } else {
                let value: u32 = if self.cpu.pc < 0x4000 {
                    let value: u32 = read_word(&self.bios, (addr & 0x3FFC) as usize);
                    self.bios_value = value;
                    value
                } else {
                    self.bios_value
                };
                proof {
                    lemma_low_masks(value >> ((addr & 2) * 8));
                }
                ((value >> ((addr & 2) * 8)) & 0xFFFF) as u16
            }
        } else if p == 0x02 {
            read_half(&self.onboard_work_ram, (addr & 0x3FFFE) as usize)
        } else if p == 0x03 {
            read_half(&self.internal_work_ram, (addr & 0x7FFE) as usize)
        } else if p == 0x04 {
            self.io.read_16(io_off_16(addr))
        } else if p == 0x05 {
            read_half(&self.palram, (addr & 0x3FE) as usize)
        } else if p == 0x06 {
            read_half(&self.vram, vram_fold_16(addr))
        } else if p == 0x07 {
            read_half(&self.oam, (addr & 0x3FE) as usize)
        } else if 0x08 <= p && p <= 0x0F {
            self.cartridge.read_16(addr & 0xFFFFFFFE)
        } else {
            let v: u32 = self.open_bus(addr);
            #[verifier::truncate] (v as u16)
        }
    }

    /// Reads a byte, decoding the page as `read_32` does.
    pub fn read_8(&mut self, addr: Addr) -> (r: u8)
        requires
            old(self)@.wf(),
        ensures
            final(self)@.wf(),
            r == old(self)@.read_8_of(addr),
            final(self)@ =~~= old(self)@.read_8_step(addr),
            final(self).cycle_luts == old(self).cycle_luts,
    {
        proof {
            lemma_addr_masks(addr);
        }
        let p: u32 = page(addr);
        if p == 0x00 {
            if addr > 0x3FFF {
                let v: u32 = self.open_bus(addr);
                #[verifier::truncate] (v as u8)
            } else {
                let value: u32 = if self.cpu.pc < 0x4000 {
                    let value: u32 = read_word(&self.bios, (addr & 0x3FFC) as usize);
                    self.bios_value = value;
                    value
                } else {
                    self.bios_value
                };
                proof {
                    lemma_low_masks(value >> ((addr & 3) * 8));
                }
                ((value >> ((addr & 3) * 8)) & 0xFF) as u8
            }
        } else if p == 0x02 {
            self.onboard_work_ram[(addr & 0x3FFFF) as usize]
        } else if p == 0x03 {
            self.internal_work_ram[(addr & 0x7FFF) as usize]
        } else if p == 0x04 {
            self.io.read_8(io_off_8(addr))
        } else if p == 0x05 {
            self.palram[(addr & 0x3FF) as usize]
        } else if p == 0x06 {
            self.vram[vram_fold_8(addr)]
        } else if p == 0x07 {
            self.oam[(addr & 0x3FF) as usize]
        } else if 0x08 <= p && p <= 0x0F {
            self.cartridge.read_8(addr)
        } else {
            let v: u32 = self.open_bus(addr);
            #[verifier::truncate] (v as u8)
        }
    }

    /// Writes a word. BIOS and unrouted pages drop it; a write that lands
    /// on the wait-control register reprograms the gamepak cycle tables.
    pub fn write_32(&mut self, addr: Addr, value: u32)
        requires
            old(self)@.wf(),
        ensures
            final(self)@.wf(),
            final(self)@ =~~= old(self)@.write_32_step(addr, value),
            !old(self)@.waitcnt_touched_32(addr) ==> final(self).cycle_luts == old(
                self,
            ).cycle_luts,
            old(self)@.waitcnt_touched_32(addr) ==> spec_gamepak_entries(
                final(self).cycle_luts,
                final(self)@.waitcnt_of(),
            ),
            old(self)@.waitcnt_touched_32(addr) ==> forall|p: int|
                0 <= p < PAGE_GAMEPAK_WS0
                    ==> #[trigger] final(self).cycle_luts.n_cycles16@[p] == old(
                    self,
                ).cycle_luts.n_cycles16@[p] && final(self).cycle_luts.s_cycles16@[p] == old(
                    self,
                ).cycle_luts.s_cycles16@[p] && final(self).cycle_luts.n_cycles32@[p] == old(
                    self,
                ).cycle_luts.n_cycles32@[p] && final(self).cycle_luts.s_cycles32@[p] == old(
                    self,
                ).cycle_luts.s_cycles32@[p],
    {
        proof {
            lemma_addr_masks(addr);
        }
        let p: u32 = page(addr);
        if p == 0x02 {
            write_word(&mut self.onboard_work_ram, (addr & 0x3FFFC) as usize, value);
        } else if p == 0x03 {
            write_word(&mut self.internal_work_ram, (addr & 0x7FFC) as usize, value);
        } else if p == 0x04 {
            let off: usize = io_off_32(addr);
            self.io.write_32(off, value);
            if off == WAITCNT_OFFSET {
                let w = self.io.waitcnt();
                self.cycle_luts.update_gamepak_waitstates(w);
            }
        } else if p == 0x05 {
            write_word(&mut self.palram, (addr & 0x3FC) as usize, value);
        } else if p == 0x06 {
            write_word(&mut self.vram, vram_fold_32(addr), value);
        } else if p == 0x07 {
            write_word(&mut self.oam, (addr & 0x3FC) as usize, value);
        } else if p == 0x08 || p == 0x0D || p == 0x0E || p == 0x0F {
            self.cartridge.write_32(addr & 0xFFFFFFFC, value);
        }
    }

    /// Writes a half-word, routed as `write_32` is.
    pub fn write_16(&mut self, addr: Addr, value: u16)
        requires
            old(self)@.wf(),
        ensures
            final(self)@.wf(),
            final(self)@ =~~= old(self)@.write_16_step(addr, value),
            !old(self)@.waitcnt_touched_16(addr) ==> final(self).cycle_luts == old(
                self,
            ).cycle_luts,
            old(self)@.waitcnt_touched_16(addr) ==> spec_gamepak_entries(
                final(self).cycle_luts,
                final(self)@.waitcnt_of(),
            ),
            old(self)@.waitcnt_touched_16(addr) ==> forall|p: int|
                0 <= p < PAGE_GAMEPAK_WS0
                    ==> #[trigger] final(self).cycle_luts.n_cycles16@[p] == old(
                    self,
                ).cycle_luts.n_cycles16@[p] && final(self).cycle_luts.s_cycles16@[p] == old(
                    self,
                ).cycle_luts.s_cycles16@[p] && final(self).cycle_luts.n_cycles32@[p] == old(
                    self,
                ).cycle_luts.n_cycles32@[p] && final(self).cycle_luts.s_cycles32@[p] == old(
                    self,
                ).cycle_luts.s_cycles32@[p],
    {
        proof {
            lemma_addr_masks(addr);
        }
        let p: u32 = page(addr);
        if p == 0x02 {
            write_half(&mut self.onboard_work_ram, (addr & 0x3FFFE) as usize, value);
        } else if p == 0x03 {
            write_half(&mut self.internal_work_ram, (addr & 0x7FFE) as usize, value);
        } else if p == 0x04 {
            let off: usize = io_off_16(addr);
            self.io.write_16(off, value);
            if off == WAITCNT_OFFSET {
                let w = self.io.waitcnt();
                self.cycle_luts.update_gamepak_waitstates(w);
            }
        } else if p == 0x05 {
            write_half(&mut self.palram, (addr & 0x3FE) as usize, value);
        } else if p == 0x06 {
            write_half(&mut self.vram, vram_fold_16(addr), value);
        } else if p == 0x07 {
            write_half(&mut self.oam, (addr & 0x3FE) as usize, value);
        } else if p == 0x08 || p == 0x0D || p == 0x0E || p == 0x0F {
            self.cartridge.write_16(addr & 0xFFFFFFFE, value);
        }
    }

    /// Writes a byte, routed as `write_32` is.
    pub fn write_8(&mut self, addr: Addr, value: u8)
        requires
            old(self)@.wf(),
        ensures
            final(self)@.wf(),
            final(self)@ =~~= old(self)@.write_8_step(addr, value),
            !old(self)@.waitcnt_touched_8(addr) ==> final(self).cycle_luts == old(
                self,
            ).cycle_luts,
            old(self)@.waitcnt_touched_8(addr) ==> spec_gamepak_entries(
                final(self).cycle_luts,
                final(self)@.waitcnt_of(),
            ),
            old(self)@.waitcnt_touched_8(addr) ==> forall|p: int|
                0 <= p < PAGE_GAMEPAK_WS0
                    ==> #[trigger] final(self).cycle_luts.n_cycles16@[p] == old(
                    self,
                ).cycle_luts.n_cycles16@[p] && final(self).cycle_luts.s_cycles16@[p] == old(
                    self,
                ).cycle_luts.s_cycles16@[p] && final(self).cycle_luts.n_cycles32@[p] == old(
                    self,
                ).cycle_luts.n_cycles32@[p] && final(self).cycle_luts.s_cycles32@[p] == old(
                    self,
                ).cycle_luts.s_cycles32@[p],
    {
        proof {
            lemma_addr_masks(addr);
        }
        let p: u32 = page(addr);
        if p == 0x02 {
            write_byte(&mut self.onboard_work_ram, (addr & 0x3FFFF) as usize, value);
        } else if p == 0x03 {
            write_byte(&mut self.internal_work_ram, (addr & 0x7FFF) as usize, value);
        } else if p == 0x04 {
            let off: usize = io_off_8(addr);
            self.io.write_8(off, value);
            if off == WAITCNT_OFFSET || off == WAITCNT_OFFSET + 1 {
                let w = self.io.waitcnt();
                self.cycle_luts.update_gamepak_waitstates(w);
            }
        } else if p == 0x05 {
            write_byte(&mut self.palram, (addr & 0x3FF) as usize, value);
        } else if p == 0x06 {
            write_byte(&mut self.vram, vram_fold_8(addr), value);
        } else if p == 0x07 {
            write_byte(&mut self.oam, (addr & 0x3FF) as usize, value);
        } else if p == 0x08 || p == 0x0D || p == 0x0E || p == 0x0F {
            self.cartridge.write_8(addr, value);
        }
    }

    /// Side-effect-free byte read for a debugger: never synthesises an
    /// open-bus value and never touches BIOS protection or the save
    /// media.
    pub fn debug_read_8(&self, addr: Addr) -> (r: u8)
        requires
            self@.wf(),
        ensures
            r == self@.debug_read_8_of(addr),
    {
        proof {
            lemma_addr_masks(addr);
        }
        let p: u32 = page(addr);
        if p == 0x00 {
            if addr < 0x4000 {
                self.bios[addr as usize]
            } else {
                0
            }
        } else if p == 0x02 {
            self.onboard_work_ram[(addr & 0x3FFFF) as usize]
        } else if p == 0x03 {
            self.internal_work_ram[(addr & 0x7FFF) as usize]
        } else if p == 0x04 {
            self.io.read_8(io_off_8(addr))
        } else if p == 0x05 {
            self.palram[(addr & 0x3FF) as usize]
        } else if p == 0x06 {
            self.vram[vram_fold_8(addr)]
        } else if p == 0x07 {
            self.oam[(addr & 0x3FF) as usize]
        } else if 0x08 <= p && p <= 0x0F {
            self.cartridge.debug_read_8(addr)
        } else {
            0
        }
    }
}

/// Rotates a value read for an unaligned address into place: the byte the
/// address selects ends up in the low bits.
pub fn load_shifted(addr: Addr, value: u32) -> (r: u32)
    ensures
        r == (value >> (((addr & 3) * 8) as u32)) as u32,
{
    proof {
        lemma_addr_masks(addr);
    }
    value >> ((addr & 3) * 8)
}

/// The fixed 16-bit RAM timing of the low pages: EWRAM costs 3, the rest
/// a single cycle.
pub open spec fn spec_ram_n16(p: int) -> usize {
    if p == 0x02 {
        3
    } else {
        1
    }
}

/// The fixed 32-bit RAM timing of the low pages: EWRAM costs 6, the
/// 16-bit graphics memories 2, the rest a single cycle.
pub open spec fn spec_ram_n32(p: int) -> usize {
    if p == 0x02 {
        6
    } else if 0x05 <= p <= 0x07 {
        2
    } else {
        1
    }
}

/// The cycle cost the tables give one access.
pub open spec fn spec_get_cycles(
    luts: CycleLookupTables,
    addr: Addr,
    access: MemoryAccessType,
    width: MemoryAccessWidth,
) -> usize {
    let p = spec_page(addr);
    if p > 0xF {
        1
    } else {
        match width {
            MemoryAccessWidth::MemoryAccess8 | MemoryAccessWidth::MemoryAccess16 => {
                match access {
                    MemoryAccessType::NonSequential => luts.n_cycles16@[p as int],
                    MemoryAccessType::Sequential => luts.s_cycles16@[p as int],
                }
            },
            MemoryAccessWidth::MemoryAccess32 => {
                match access {
                    MemoryAccessType::NonSequential => luts.n_cycles32@[p as int],
                    MemoryAccessType::Sequential => luts.s_cycles32@[p as int],
                }
            },
        }
    }
}

fn zeroed(len: usize) -> (r: Vec<u8>)
    ensures
        r@ =~= Seq::<u8>::new(len as nat, |i: int| 0u8),
{
    let mut v: Vec<u8> = Vec::new();
    let mut i: usize = 0;
    while i < len
        invariant
            i <= len,
            v@ =~= Seq::<u8>::new(i as nat, |j: int| 0u8),
        decreases len - i,
    {
        v.push(0);
        i = i + 1;
    }
    v
}

} // verus!

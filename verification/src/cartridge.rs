//! The cartridge: ROM bytes, parsed header, backup media and the optional
//! GPIO port, with the sub-decoding of the gamepak and SRAM address ranges.

use vstd::prelude::*;

use std::collections::HashMap;

use crate::backup::BackupType;
use crate::backup::EepromController;
use crate::backup::EepromView;
use crate::backup::Flash;
use crate::backup::FlashView;
use crate::backup::EEPROM_LARGE_SIZE;
use crate::backup::EEPROM_SMALL_SIZE;
use crate::backup::FLASH_LARGE_SIZE;
use crate::backup::FLASH_SMALL_SIZE;
use crate::backup::SRAM_SIZE;
use crate::gpio::Gpio;
use crate::gpio::GPIO_PORT_CONTROL;
use crate::gpio::GPIO_PORT_DATA;
use crate::gpio::GPIO_PORT_DIRECTION;
use crate::header::CartridgeHeader;
use crate::header::LoadError;
use crate::header::HEADER_SIZE;
use crate::mem::page;
use crate::mem::spec_page;
use crate::mem::Addr;

verus! {

/// Debug symbols a homebrew ROM may carry.
pub type SymbolTable = HashMap<String, u32>;

/// First address of the EEPROM window that exists at every ROM size.
pub const EEPROM_BASE_ADDR: u32 = 0x0DFF_FF00;

/// Largest ROM the 32 MiB gamepak window can hold.
pub const ROM_MAX_SIZE: usize = 0x0200_0000;

/// Up to this ROM size the whole last gamepak page reaches the EEPROM.
pub const EEPROM_SMALL_ROM_MAX: usize = 0x0100_0000;

/// Mask of the 25-bit offset within the gamepak window.
pub const ROM_OFFSET_MASK: u32 = 0x01FF_FFFF;

/// One of the save-media state machines, or none when the cartridge has no
/// battery-backed storage.
#[derive(Clone, Debug)]
pub enum BackupMedia {
    Sram(Vec<u8>),
    Flash(Flash),
    Eeprom(EepromController),
    Undetected,
}

/// Mathematical model of the backup media.
pub ghost enum BackupMediaView {
    Sram(Seq<u8>),
    Flash(FlashView),
    Eeprom(EepromView),
    Undetected,
}

impl View for BackupMedia {
    type V = BackupMediaView;

    open spec fn view(&self) -> BackupMediaView {
        match self {
            BackupMedia::Sram(m) => BackupMediaView::Sram(m@),
            BackupMedia::Flash(f) => BackupMediaView::Flash(f@),
            BackupMedia::Eeprom(e) => BackupMediaView::Eeprom(e@),
            BackupMedia::Undetected => BackupMediaView::Undetected,
        }
    }
}

/// Whether an address aliases one of the three GPIO registers within the
/// ROM window's low 25 bits.
pub open spec fn spec_is_gpio_access(addr: Addr) -> bool {
    ||| addr & ROM_OFFSET_MASK == GPIO_PORT_DATA
    ||| addr & ROM_OFFSET_MASK == GPIO_PORT_DIRECTION
    ||| addr & ROM_OFFSET_MASK == GPIO_PORT_CONTROL
}

pub fn is_gpio_access(addr: Addr) -> (r: bool)
    ensures
        r == spec_is_gpio_access(addr),
{
    let masked: u32 = addr & ROM_OFFSET_MASK;
    masked == GPIO_PORT_DATA || masked == GPIO_PORT_DIRECTION || masked == GPIO_PORT_CONTROL
}

/// A gamepak ROM page: one of the six waitstate mirrors.
pub open spec fn spec_is_rom_page(addr: Addr) -> bool {
    0x08 <= spec_page(addr) <= 0x0D
}

/// An SRAM page: either mirror of the 64 KiB save window.
pub open spec fn spec_is_sram_page(addr: Addr) -> bool {
    spec_page(addr) == 0x0E || spec_page(addr) == 0x0F
}

/// The half-word the gamepak bus floats to when a read goes past the end
/// of ROM: the address's own word index.
pub open spec fn spec_rom_oob_half(addr: Addr) -> u16 {
    ((addr >> 1) & 0xFFFF) as u16
}

/// The byte of that floating half-word an 8-bit read selects.
pub open spec fn spec_rom_oob_byte(addr: Addr) -> u8 {
    if addr & 1 == 1 {
        (spec_rom_oob_half(addr) >> 8) as u8
    } else {
        (spec_rom_oob_half(addr) & 0xFF) as u8
    }
}

/// Mathematical model of the cartridge state a bus access can observe or
/// change.
#[verifier::ext_equal]
pub ghost struct CartridgeView {
    pub bytes: Seq<u8>,
    pub size: int,
    pub gpio: Option<Gpio>,
    pub backup: BackupMediaView,
}

impl CartridgeView {
    pub open spec fn wf(self) -> bool {
        &&& self.size == self.bytes.len()
        &&& self.size <= ROM_MAX_SIZE
        &&& match self.backup {
            BackupMediaView::Sram(m) => m.len() == SRAM_SIZE,
            BackupMediaView::Flash(f) => f.wf(),
            BackupMediaView::Eeprom(e) => e.wf(),
            BackupMediaView::Undetected => true,
        }
    }

    /// Whether an address reaches the EEPROM: only the gamepak's last page,
    /// and past 16 MiB of ROM only its topmost 256 bytes.
    pub open spec fn eeprom_window(self, addr: Addr) -> bool {
        spec_page(addr) == 0x0D && (self.size <= EEPROM_SMALL_ROM_MAX || addr
            >= EEPROM_BASE_ADDR)
    }

    /// What an 8-bit read returns: the save byte in the SRAM pages, else a
    /// ROM byte, else the floating value past the end of ROM.
    pub open spec fn read_8_of(self, addr: Addr) -> u8 {
        if spec_is_sram_page(addr) {
            match self.backup {
                BackupMediaView::Sram(m) => m[(addr & 0x7FFF) as int],
                BackupMediaView::Flash(f) => f.read_of(addr),
                _ => 0,
            }
        } else {
            if addr & ROM_OFFSET_MASK >= self.size {
                spec_rom_oob_byte(addr)
            } else {
                self.bytes[(addr & ROM_OFFSET_MASK) as int]
            }
        }
    }

    /// Whether a 16-bit access is routed to the GPIO registers.
    pub open spec fn gpio_routed(self, addr: Addr) -> bool {
        self.gpio is Some && spec_is_rom_page(addr) && spec_is_gpio_access(addr)
    }

    /// Whether a 16-bit access is routed to the EEPROM controller.
    pub open spec fn eeprom_routed(self, addr: Addr) -> bool {
        !self.gpio_routed(addr) && self.eeprom_window(addr) && self.backup is Eeprom
    }

    /// What a 16-bit read returns.
    pub open spec fn read_16_of(self, addr: Addr) -> u16 {
        if self.gpio_routed(addr) {
            self.gpio->0.spec_read(addr & ROM_OFFSET_MASK)
        } else if self.eeprom_routed(addr) {
            self.backup->Eeprom_0.read_bit_of()
        } else {
            ((self.read_8_of(addr) as u16) | ((self.read_8_of((addr + 1) as u32) as u16)
                << 8)) as u16
        }
    }

    /// The cartridge after a 16-bit read: only an EEPROM read changes it.
    pub open spec fn read_16_step(self, addr: Addr) -> CartridgeView {
        if self.eeprom_routed(addr) {
            CartridgeView {
                backup: BackupMediaView::Eeprom(self.backup->Eeprom_0.read_bit_step()),
                ..self
            }
        } else {
            self
        }
    }

    /// What a 32-bit read returns: its two half-words in order.
    pub open spec fn read_32_of(self, addr: Addr) -> u32 {
        ((self.read_16_of(addr) as u32) | ((self.read_16_step(addr).read_16_of(
            (addr + 2) as u32,
        ) as u32) << 16)) as u32
    }

    /// The cartridge after a 32-bit read: the two half-word reads in order.
    pub open spec fn read_32_step(self, addr: Addr) -> CartridgeView {
        self.read_16_step(addr).read_16_step((addr + 2) as u32)
    }

    /// The cartridge after an 8-bit write: only the save media in the SRAM
    /// pages is writable.
    pub open spec fn write_8_step(self, addr: Addr, value: u8) -> CartridgeView {
        if spec_is_sram_page(addr) {
            match self.backup {
                BackupMediaView::Sram(m) => CartridgeView {
                    backup: BackupMediaView::Sram(m.update((addr & 0x7FFF) as int, value)),
                    ..self
                },
                BackupMediaView::Flash(f) => CartridgeView {
                    backup: BackupMediaView::Flash(f.write_step(addr, value)),
                    ..self
                },
                _ => self,
            }
        } else {
            self
        }
    }

    /// The cartridge after a 16-bit write: the GPIO registers and the
    /// EEPROM take the half-word; anything else is two byte writes.
    pub open spec fn write_16_step(self, addr: Addr, value: u16) -> CartridgeView {
        if self.gpio_routed(addr) {
            CartridgeView {
                gpio: Some(self.gpio->0.spec_write(addr & ROM_OFFSET_MASK, value)),
                ..self
            }
        } else if self.eeprom_routed(addr) {
            CartridgeView {
                backup: BackupMediaView::Eeprom(
                    self.backup->Eeprom_0.write_bit_step(value & 1 == 1),
                ),
                ..self
            }
        } else {
            self.write_8_step(addr, value as u8).write_8_step(
                (addr + 1) as u32,
                (value >> 8) as u8,
            )
        }
    }

    /// The cartridge after a 32-bit write: its two half-words in order.
    pub open spec fn write_32_step(self, addr: Addr, value: u32) -> CartridgeView {
        self.write_16_step(addr, value as u16).write_16_step(
            (addr + 2) as u32,
            (value >> 16) as u16,
        )
    }
}

/// The cartridge as the bus sees it.
#[derive(Clone, Debug)]
pub struct Cartridge {
    pub header: CartridgeHeader,
    pub bytes: Vec<u8>,
    pub size: usize,
    pub gpio: Option<Gpio>,
    pub symbols: Option<SymbolTable>,
    pub backup: BackupMedia,
}

impl View for Cartridge {
    type V = CartridgeView;

    open spec fn view(&self) -> CartridgeView {
        CartridgeView {
            bytes: self.bytes@,
            size: self.size as int,
            gpio: self.gpio,
            backup: self.backup@,
        }
    }
}

impl Cartridge {
    pub fn get_symbols(&self) -> (r: &Option<SymbolTable>)
        ensures
            r == &self.symbols,
    {
        &self.symbols
    }

    pub fn get_gpio(&self) -> (r: &Option<Gpio>)
        ensures
            r == &self.gpio,
    {
        &self.gpio
    }

    pub fn read_8(&self, addr: Addr) -> (r: u8)
        requires
            self@.wf(),
        ensures
            r == self@.read_8_of(addr),
    {
        let p: u32 = page(addr);
        if p == 0x0E || p == 0x0F {
            match &self.backup {
                BackupMedia::Sram(m) => {
                    proof {
                        assert(addr & 0x7FFF < 0x8000) by (bit_vector);
                    }
                    m[(addr & 0x7FFF) as usize]
                },
                BackupMedia::Flash(f) => f.read(addr),
                _ => 0,
            }
        } else {
            let offset: u32 = addr & ROM_OFFSET_MASK;
            if offset as usize >= self.size {
                rom_oob_byte(addr)
            } else {
                self.bytes[offset as usize]
            }
        }
    }

    pub fn read_16(&mut self, addr: Addr) -> (r: u16)
        requires
            old(self)@.wf(),
            addr & 1 == 0,
        ensures
            final(self)@.wf(),
            r == old(self)@.read_16_of(addr),
            final(self)@ =~= old(self)@.read_16_step(addr),
            final(self).header == old(self).header,
            final(self).symbols == old(self).symbols,
    {
        proof {
            assert(addr & 1 == 0 ==> addr < 0xFFFFFFFF) by (bit_vector);
        }
        let p: u32 = page(addr);
        if self.gpio.is_some() && 0x08 <= p && p <= 0x0D && is_gpio_access(addr) {
            let gpio = self.gpio.as_ref().unwrap();
            return gpio.read(addr & ROM_OFFSET_MASK);
        }
        if p == 0x0D && (self.size <= EEPROM_SMALL_ROM_MAX || addr >= EEPROM_BASE_ADDR) {
            if let BackupMedia::Eeprom(spi) = &mut self.backup {
                return spi.read_half();
            }
        }
        let lo: u8 = self.read_8(addr);
        let hi: u8 = self.read_8(addr + 1);
        (lo as u16) | ((hi as u16) << 8)
    }

    pub fn read_32(&mut self, addr: Addr) -> (r: u32)
        requires
            old(self)@.wf(),
            addr & 3 == 0,
        ensures
            final(self)@.wf(),
            r == old(self)@.read_32_of(addr),
            final(self)@ =~= old(self)@.read_32_step(addr),
            final(self).header == old(self).header,
            final(self).symbols == old(self).symbols,
    {
        proof {
            assert(addr & 3 == 0 ==> (addr & 1 == 0 && addr <= 0xFFFFFFFC)) by (bit_vector);
        }
        let addr2: u32 = addr + 2;
        proof {
            assert(addr2 & 1 == 0) by (bit_vector)
                requires
                    addr & 3 == 0,
                    addr2 == addr + 2,
            ;
        }
        let lo: u16 = self.read_16(addr);
        let hi: u16 = self.read_16(addr2);
        (lo as u32) | ((hi as u32) << 16)
    }

    pub fn write_8(&mut self, addr: Addr, value: u8)
        requires
            old(self)@.wf(),
        ensures
            final(self)@.wf(),
            final(self)@ =~= old(self)@.write_8_step(addr, value),
            final(self).header == old(self).header,
            final(self).symbols == old(self).symbols,
    {
        let p: u32 = page(addr);
        if p == 0x0E || p == 0x0F {
            match &mut self.backup {
                BackupMedia::Flash(f) => f.write(addr, value),
                BackupMedia::Sram(m) => {
                    proof {
                        assert(addr & 0x7FFF < 0x8000) by (bit_vector);
                    }
                    m.set((addr & 0x7FFF) as usize, value);
                },
                _ => {},
            }
        }
    }

    pub fn write_16(&mut self, addr: Addr, value: u16)
        requires
            old(self)@.wf(),
            addr & 1 == 0,
        ensures
            final(self)@.wf(),
            final(self)@ =~= old(self)@.write_16_step(addr, value),
            final(self).header == old(self).header,
            final(self).symbols == old(self).symbols,
    {
        proof {
            assert(addr & 1 == 0 ==> addr < 0xFFFFFFFF) by (bit_vector);
        }
        let p: u32 = page(addr);
        if self.gpio.is_some() && 0x08 <= p && p <= 0x0D && is_gpio_access(addr) {
            let gpio = self.gpio.as_mut().unwrap();
            gpio.write(addr & ROM_OFFSET_MASK, value);
            return ;
        }
        if p == 0x0D && (self.size <= EEPROM_SMALL_ROM_MAX || addr >= EEPROM_BASE_ADDR) {
            if let BackupMedia::Eeprom(spi) = &mut self.backup {
                spi.write_half(value);
                return ;
            }
        }
        self.write_8(addr, value as u8);
        self.write_8(addr + 1, (value >> 8) as u8);
    }

    pub fn write_32(&mut self, addr: Addr, value: u32)
        requires
            old(self)@.wf(),
            addr & 3 == 0,
        ensures
            final(self)@.wf(),
            final(self)@ =~= old(self)@.write_32_step(addr, value),
            final(self).header == old(self).header,
            final(self).symbols == old(self).symbols,
    {
        proof {
            assert(addr & 3 == 0 ==> (addr & 1 == 0 && addr <= 0xFFFFFFFC)) by (bit_vector);
        }
        let addr2: u32 = addr + 2;
        proof {
            assert(addr2 & 1 == 0) by (bit_vector)
                requires
                    addr & 3 == 0,
                    addr2 == addr + 2,
            ;
        }
        self.write_16(addr, value as u16);
        self.write_16(addr2, (value >> 16) as u16);
    }

    /// Side-effect-free view of a ROM byte for a debugger: never touches
    /// the save media and reads past the end of ROM as zero.
    pub fn debug_read_8(&self, addr: Addr) -> (r: u8)
        requires
            self@.wf(),
        ensures
            addr & ROM_OFFSET_MASK < self@.size ==> r == self@.bytes[(addr
                & ROM_OFFSET_MASK) as int],
            addr & ROM_OFFSET_MASK >= self@.size ==> r == 0,
    {
        let offset: u32 = addr & ROM_OFFSET_MASK;
        if (offset as usize) < self.size {
            self.bytes[offset as usize]
        } else {
            0
        }
    }
}

fn rom_oob_byte(addr: Addr) -> (r: u8)
    ensures
        r == spec_rom_oob_byte(addr),
{
    let half: u16 = ((addr >> 1) & 0xFFFF) as u16;
    if addr & 1 == 1 {
        (half >> 8) as u8
    } else {
        (half & 0xFF) as u8
    }
}

/// The identifying string `EEPROM_V` as bytes.
pub open spec fn spec_eeprom_magic() -> Seq<u8> {
    seq![0x45u8, 0x45, 0x50, 0x52, 0x4F, 0x4D, 0x5F, 0x56]
}

/// The identifying string `SRAM_V` as bytes.
pub open spec fn spec_sram_magic() -> Seq<u8> {
    seq![0x53u8, 0x52, 0x41, 0x4D, 0x5F, 0x56]
}

/// The identifying string `FLASH_V` as bytes.
pub open spec fn spec_flash_magic() -> Seq<u8> {
    seq![0x46u8, 0x4C, 0x41, 0x53, 0x48, 0x5F, 0x56]
}

/// The identifying string `FLASH512_V` as bytes.
pub open spec fn spec_flash512_magic() -> Seq<u8> {
    seq![0x46u8, 0x4C, 0x41, 0x53, 0x48, 0x35, 0x31, 0x32, 0x5F, 0x56]
}

/// The identifying string `FLASH1M_V` as bytes.
pub open spec fn spec_flash1m_magic() -> Seq<u8> {
    seq![0x46u8, 0x4C, 0x41, 0x53, 0x48, 0x31, 0x4D, 0x5F, 0x56]
}

/// Whether `pat` occurs in `rom` starting at `i`.
pub open spec fn spec_magic_at(rom: Seq<u8>, pat: Seq<u8>, i: int) -> bool {
    &&& 0 <= i
    &&& i + pat.len() <= rom.len()
    &&& forall|j: int| 0 <= j < pat.len() ==> rom[i + j] == #[trigger] pat[j]
}

/// Whether `pat` occurs anywhere in `rom`.
pub open spec fn spec_contains_magic(rom: Seq<u8>, pat: Seq<u8>) -> bool {
    exists|i: int| spec_magic_at(rom, pat, i)
}

/// The backup type the identifying strings imply, first match winning in
/// the order the strings are scanned for.
pub open spec fn spec_detect_backup(rom: Seq<u8>) -> Option<BackupType> {
    if spec_contains_magic(rom, spec_eeprom_magic()) {
        Some(BackupType::Eeprom)
    } else if spec_contains_magic(rom, spec_sram_magic()) {
        Some(BackupType::Sram)
    } else if spec_contains_magic(rom, spec_flash_magic()) {
        Some(BackupType::Flash)
    } else if spec_contains_magic(rom, spec_flash512_magic()) {
        Some(BackupType::Flash512)
    } else if spec_contains_magic(rom, spec_flash1m_magic()) {
        Some(BackupType::Flash1M)
    } else {
        None
    }
}

fn match_at(rom: &Vec<u8>, pat: &Vec<u8>, i: usize) -> (r: bool)
    requires
        i + pat@.len() <= rom@.len(),
    ensures
        r == spec_magic_at(rom@, pat@, i as int),
{
    let n: usize = rom.len();
    let mut j: usize = 0;
    while j < pat.len()
        invariant
            j <= pat@.len(),
            i + pat@.len() <= rom@.len(),
            rom@.len() == n,
            forall|k: int| 0 <= k < j ==> rom@[i + k] == #[trigger] pat@[k],
        decreases pat@.len() - j,
    {
        if rom[i + j] != pat[j] {
            return false;
        }
        j = j + 1;
    }
    true
}

/// Scans a ROM image for one identifying string.
fn contains_magic(rom: &Vec<u8>, pat: &Vec<u8>) -> (r: bool)
    requires
        pat@.len() >= 1,
    ensures
        r == spec_contains_magic(rom@, pat@),
{
    let n: usize = rom.len();
    let m: usize = pat.len();
    if m > n {
        proof {
            assert(forall|i: int| !spec_magic_at(rom@, pat@, i));
        }
        return false;
    }
    let mut i: usize = 0;
    while i <= n - m
        invariant
            m <= n,
            n == rom@.len(),
            m == pat@.len(),
            i <= n - m + 1,
            forall|k: int| 0 <= k < i ==> !spec_magic_at(rom@, pat@, k),
        decreases n - i,
    {
        if match_at(rom, pat, i) {
            return true;
        }
        i = i + 1;
    }
    proof {
        assert(forall|k: int| !spec_magic_at(rom@, pat@, k));
    }
    false
}

fn eeprom_magic() -> (r: Vec<u8>)
    ensures
        r@ == spec_eeprom_magic(),
{
    let mut v: Vec<u8> = Vec::new();
    v.push(0x45);
    v.push(0x45);
    v.push(0x50);
    v.push(0x52);
    v.push(0x4F);
    v.push(0x4D);
    v.push(0x5F);
    v.push(0x56);
    proof {
        assert(v@ =~= spec_eeprom_magic());
    }
    v
}

fn sram_magic() -> (r: Vec<u8>)
    ensures
        r@ == spec_sram_magic(),
{
    let mut v: Vec<u8> = Vec::new();
    v.push(0x53);
    v.push(0x52);
    v.push(0x41);
    v.push(0x4D);
    v.push(0x5F);
    v.push(0x56);
    proof {
        assert(v@ =~= spec_sram_magic());
    }
    v
}

fn flash_magic() -> (r: Vec<u8>)
    ensures
        r@ == spec_flash_magic(),
{
    let mut v: Vec<u8> = Vec::new();
    v.push(0x46);
    v.push(0x4C);
    v.push(0x41);
    v.push(0x53);
    v.push(0x48);
    v.push(0x5F);
    v.push(0x56);
    proof {
        assert(v@ =~= spec_flash_magic());
    }
    v
}

fn flash512_magic() -> (r: Vec<u8>)
    ensures
        r@ == spec_flash512_magic(),
{
    let mut v: Vec<u8> = Vec::new();
    v.push(0x46);
    v.push(0x4C);
    v.push(0x41);
    v.push(0x53);
    v.push(0x48);
    v.push(0x35);
    v.push(0x31);
    v.push(0x32);
    v.push(0x5F);
    v.push(0x56);
    proof {
        assert(v@ =~= spec_flash512_magic());
    }
    v
}

fn flash1m_magic() -> (r: Vec<u8>)
    ensures
        r@ == spec_flash1m_magic(),
{
    let mut v: Vec<u8> = Vec::new();
    v.push(0x46);
    v.push(0x4C);
    v.push(0x41);
    v.push(0x53);
    v.push(0x48);
    v.push(0x31);
    v.push(0x4D);
    v.push(0x5F);
    v.push(0x56);
    proof {
        assert(v@ =~= spec_flash1m_magic());
    }
    v
}

/// Whether a save image of the given length fits the backup type in
/// force. With no backup type there is nothing for a save image to fill.
pub open spec fn spec_save_fits(t: Option<BackupType>, save_len: int) -> bool {
    match t {
        None => false,
        Some(BackupType::Sram) => save_len == SRAM_SIZE,
        Some(BackupType::Flash) => save_len == FLASH_SMALL_SIZE,
        Some(BackupType::Flash512) => save_len == FLASH_SMALL_SIZE,
        Some(BackupType::Flash1M) => save_len == FLASH_LARGE_SIZE,
        Some(BackupType::Eeprom) => save_len == EEPROM_SMALL_SIZE || save_len
            == EEPROM_LARGE_SIZE,
    }
}

/// A byte store of the given length in its erased state.
pub open spec fn spec_erased(len: int) -> Seq<u8> {
    Seq::<u8>::new(len as nat, |i: int| 0xFFu8)
}

/// Builds a cartridge from ROM bytes, optional save bytes and an optional
/// forced backup type; without a forced type the ROM is scanned for the
/// identifying strings. An EEPROM part's size follows the save image's
/// length; without one the 512-byte part is assumed, so the 8 KiB part is
/// selected by handing the builder an erased 8 KiB save image.
pub struct GamepakBuilder {
    pub rom: Option<Vec<u8>>,
    pub save: Option<Vec<u8>>,
    pub backup_type: Option<BackupType>,
    pub gpio: bool,
}

impl GamepakBuilder {
    pub fn new() -> (r: GamepakBuilder)
        ensures
            r.rom is None,
            r.save is None,
            r.backup_type is None,
            !r.gpio,
    {
        GamepakBuilder { rom: None, save: None, backup_type: None, gpio: false }
    }

    pub fn with_rom(self, bytes: Vec<u8>) -> (r: GamepakBuilder)
        ensures
            r == (GamepakBuilder { rom: Some(bytes), ..self }),
    {
        GamepakBuilder { rom: Some(bytes), ..self }
    }

    pub fn with_save(self, bytes: Vec<u8>) -> (r: GamepakBuilder)
        ensures
            r == (GamepakBuilder { save: Some(bytes), ..self }),
    {
        GamepakBuilder { save: Some(bytes), ..self }
    }

    pub fn with_backup_type(self, t: BackupType) -> (r: GamepakBuilder)
        ensures
            r == (GamepakBuilder { backup_type: Some(t), ..self }),
    {
        GamepakBuilder { backup_type: Some(t), ..self }
    }

    pub fn with_gpio(self) -> (r: GamepakBuilder)
        ensures
            r == (GamepakBuilder { gpio: true, ..self }),
    {
        GamepakBuilder { gpio: true, ..self }
    }

    /// The backup type the build will give the cartridge: the forced one,
    /// else whatever the ROM's identifying strings imply.
    pub open spec fn effective_backup(self) -> Option<BackupType> {
        if self.backup_type is Some {
            self.backup_type
        } else if self.rom is Some {
            spec_detect_backup(self.rom->0@)
        } else {
            None
        }
    }

    /// A ROM image that can carry a header and fit the gamepak window.
    pub open spec fn rom_ok(self) -> bool {
        self.rom is Some && HEADER_SIZE <= self.rom->0@.len() <= ROM_MAX_SIZE
    }

    /// Any given save image fits the backup type in force.
    pub open spec fn save_ok(self) -> bool {
        self.save is Some ==> spec_save_fits(self.effective_backup(), self.save->0@.len() as int)
    }

    pub fn build(self) -> (r: Result<Cartridge, LoadError>)
        ensures
            r is Ok <==> self.rom_ok() && self.save_ok(),
            !self.rom_ok() ==> r == Result::<Cartridge, LoadError>::Err(
                LoadError::InvalidHeader,
            ),
            self.rom_ok() && !self.save_ok() ==> r == Result::<Cartridge, LoadError>::Err(
                LoadError::BackupConflict,
            ),
            r matches Ok(c) ==> {
                &&& c@.wf()
                &&& c@.bytes == self.rom->0@
                &&& c@.size == self.rom->0@.len()
                &&& c.header.parsed_from(self.rom->0@)
                &&& c@.gpio == if self.gpio {
                    Some(Gpio { data: 0, direction: 0, control: 0 })
                } else {
                    Option::<Gpio>::None
                }
                &&& c.symbols is None
                &&& match self.effective_backup() {
                    None => c@.backup is Undetected,
                    Some(BackupType::Sram) => c@.backup matches BackupMediaView::Sram(m)
                        && m == if self.save is Some {
                        self.save->0@
                    } else {
                        spec_erased(SRAM_SIZE as int)
                    },
                    Some(BackupType::Flash) | Some(BackupType::Flash512) => c@.backup matches
                        BackupMediaView::Flash(f) && f.mode == crate::backup::FlashMode::Idle
                        && !f.erase_armed && !f.chip_id_mode && f.bank == 0 && f.bytes
                        == if self.save is Some {
                        self.save->0@
                    } else {
                        spec_erased(FLASH_SMALL_SIZE as int)
                    },
                    Some(BackupType::Flash1M) => c@.backup matches BackupMediaView::Flash(f)
                        && f.mode == crate::backup::FlashMode::Idle && !f.erase_armed
                        && !f.chip_id_mode && f.bank == 0 && f.bytes == if self.save is Some {
                        self.save->0@
                    } else {
                        spec_erased(FLASH_LARGE_SIZE as int)
                    },
                    Some(BackupType::Eeprom) => c@.backup matches BackupMediaView::Eeprom(e)
                        && e.phase == crate::backup::EepromPhase::Idle && e.mem == if self.save
                         is Some {
                        self.save->0@
                    } else {
                        spec_erased(EEPROM_SMALL_SIZE as int)
                    },
                }
            },
    {
        let GamepakBuilder { rom, save, backup_type, gpio } = self;
        let rom = match rom {
            Some(r) => r,
            None => {
                return Err(LoadError::InvalidHeader);
            },
        };
        if rom.len() < HEADER_SIZE || rom.len() > ROM_MAX_SIZE {
            return Err(LoadError::InvalidHeader);
        }
        let header = match CartridgeHeader::parse(&rom) {
            Ok(h) => h,
            Err(e) => {
                return Err(e);
            },
        };
        let effective: Option<BackupType> = match backup_type {
            Some(t) => Some(t),
            None => detect_backup_type(&rom),
        };
        if let Some(s) = &save {
            let fits: bool = match effective {
                None => false,
                Some(BackupType::Sram) => s.len() == SRAM_SIZE,
                Some(BackupType::Flash) => s.len() == FLASH_SMALL_SIZE,
                Some(BackupType::Flash512) => s.len() == FLASH_SMALL_SIZE,
                Some(BackupType::Flash1M) => s.len() == FLASH_LARGE_SIZE,
                Some(BackupType::Eeprom) => s.len() == EEPROM_SMALL_SIZE || s.len()
                    == EEPROM_LARGE_SIZE,
            };
            if !fits {
                return Err(LoadError::BackupConflict);
            }
        }
        let backup: BackupMedia = match effective {
            None => BackupMedia::Undetected,
            Some(BackupType::Sram) => BackupMedia::Sram(
                match save {
                    Some(s) => s,
                    None => erased(SRAM_SIZE),
                },
            ),
            Some(BackupType::Flash) | Some(BackupType::Flash512) => BackupMedia::Flash(
                match save {
                    Some(s) => Flash::from_bytes(s),
                    None => Flash::new(FLASH_SMALL_SIZE),
                },
            ),
            Some(BackupType::Flash1M) => BackupMedia::Flash(
                match save {
                    Some(s) => Flash::from_bytes(s),
                    None => Flash::new(FLASH_LARGE_SIZE),
                },
            ),
            Some(BackupType::Eeprom) => BackupMedia::Eeprom(
                match save {
                    Some(s) => EepromController::from_bytes(s),
                    None => EepromController::new(false),
                },
            ),
        };
        let size: usize = rom.len();
        Ok(
            Cartridge {
                header,
                bytes: rom,
                size,
                gpio: if gpio {
                    Some(Gpio::new())
                } else {
                    None
                },
                symbols: None,
                backup,
            },
        )
    }
}

/// A byte store of the given length in its erased state.
fn erased(len: usize) -> (r: Vec<u8>)
    ensures
        r@ =~= spec_erased(len as int),
{
    let mut v: Vec<u8> = Vec::new();
    let mut i: usize = 0;
    while i < len
        invariant
            i <= len,
            v@ =~= Seq::<u8>::new(i as nat, |j: int| 0xFFu8),
        decreases len - i,
    {
        v.push(0xFF);
        i = i + 1;
    }
    v
}

/// Scans a ROM image for the identifying strings the build tools leave in
/// it, and names the backup technology the first of them implies.
pub fn detect_backup_type(rom: &Vec<u8>) -> (r: Option<BackupType>)
    ensures
        r == spec_detect_backup(rom@),
{
    let eeprom = eeprom_magic();
    if contains_magic(rom, &eeprom) {
        return Some(BackupType::Eeprom);
    }
    let sram = sram_magic();
    if contains_magic(rom, &sram) {
        return Some(BackupType::Sram);
    }
    let flash = flash_magic();
    if contains_magic(rom, &flash) {
        return Some(BackupType::Flash);
    }
    let flash512 = flash512_magic();
    if contains_magic(rom, &flash512) {
        return Some(BackupType::Flash512);
    }
    let flash1m = flash1m_magic();
    if contains_magic(rom, &flash1m) {
        return Some(BackupType::Flash1M);
    }
    None
}

} // verus!

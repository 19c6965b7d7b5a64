//! Laws of the bus: the mirroring, protection, round-trip and open-bus
//! properties that hold of every bus state.

use vstd::prelude::*;

use crate::backup::spec_block_word;
use crate::backup::EepromPhase;
use crate::backup::EepromView;
use crate::backup::EEPROM_SMALL_SIZE;
use crate::bus::SysBusView;
use crate::cartridge::BackupMediaView;
use crate::cartridge::CartridgeView;
use crate::mem::spec_half_at;
use crate::mem::spec_page;
use crate::mem::spec_store_half;
use crate::mem::spec_store_word;
use crate::mem::spec_word_at;

verus! {

/// Work-RAM mirroring: two addresses of the EWRAM page that agree on the
/// low 18 bits read the same byte, half-word and word, at every width.
pub proof fn lemma_ewram_mirror(bus: SysBusView, a1: u32, a2: u32)
    requires
        bus.wf(),
        spec_page(a1) == 0x02,
        spec_page(a2) == 0x02,
        a1 & 0x3FFFF == a2 & 0x3FFFF,
    ensures
        bus.read_8_of(a1) == bus.read_8_of(a2),
        bus.read_16_of(a1) == bus.read_16_of(a2),
        bus.read_32_of(a1) == bus.read_32_of(a2),
{
    assert(a1 & 0x3FFFF == a2 & 0x3FFFF ==> a1 & 0x3FFFE == a2 & 0x3FFFE && a1 & 0x3FFFC == a2
        & 0x3FFFC) by (bit_vector);
}

/// Internal work-RAM mirroring: two addresses of the IWRAM page that
/// agree on the low 15 bits read the same values at every width.
pub proof fn lemma_iwram_mirror(bus: SysBusView, a1: u32, a2: u32)
    requires
        bus.wf(),
        spec_page(a1) == 0x03,
        spec_page(a2) == 0x03,
        a1 & 0x7FFF == a2 & 0x7FFF,
    ensures
        bus.read_8_of(a1) == bus.read_8_of(a2),
        bus.read_16_of(a1) == bus.read_16_of(a2),
        bus.read_32_of(a1) == bus.read_32_of(a2),
{
    assert(a1 & 0x7FFF == a2 & 0x7FFF ==> a1 & 0x7FFE == a2 & 0x7FFE && a1 & 0x7FFC == a2
        & 0x7FFC) by (bit_vector);
}

/// BIOS protection: while the program counter is outside BIOS, every
/// in-range BIOS read returns the cached word (shifted for the narrow
/// widths) and leaves the whole bus unchanged.
pub proof fn lemma_bios_protection(bus: SysBusView, a: u32)
    requires
        bus.wf(),
        spec_page(a) == 0x00,
        a <= 0x3FFF,
        bus.cpu.pc >= 0x4000,
    ensures
        bus.read_32_of(a) == bus.bios_value,
        bus.read_16_of(a) == ((bus.bios_value >> (((a & 2) * 8) as u32)) & 0xFFFF) as u16,
        bus.read_8_of(a) == ((bus.bios_value >> (((a & 3) * 8) as u32)) & 0xFF) as u8,
        bus.read_32_step(a) == bus,
        bus.read_16_step(a) == bus,
        bus.read_8_step(a) == bus,
{
}

/// BIOS protection, establishing side: while the program counter is
/// still inside BIOS, an in-range read returns the real BIOS word and
/// caches it, so that the reads of `lemma_bios_protection` replay it.
pub proof fn lemma_bios_cache_established(bus: SysBusView, a: u32)
    requires
        bus.wf(),
        spec_page(a) == 0x00,
        a <= 0x3FFF,
        bus.cpu.pc < 0x4000,
    ensures
        bus.read_32_of(a) == spec_word_at(bus.bios, (a & 0x3FFC) as int),
        bus.read_32_step(a).bios_value == spec_word_at(bus.bios, (a & 0x3FFC) as int),
{
}

/// Storing a word and reading it back at the same offset round-trips.
proof fn lemma_store_word_roundtrip(mem: Seq<u8>, off: int, v: u32)
    requires
        0 <= off,
        off + 4 <= mem.len(),
    ensures
        spec_word_at(spec_store_word(mem, off, v), off) == v,
{
    let stored = spec_store_word(mem, off, v);
    assert(stored[off] == (v as u16) as u8);
    assert(stored[off + 1] == ((v as u16) >> 8) as u8);
    assert(stored[off + 2] == ((v >> 16) as u16) as u8);
    assert(stored[off + 3] == (((v >> 16) as u16) >> 8) as u8);
    assert((((((v as u16) as u8) as u16 | ((((v as u16) >> 8) as u8) as u16) << 8) as u16 as u32)
        | (((((v >> 16) as u16) as u8) as u16 | (((((v >> 16) as u16) >> 8) as u8) as u16)
        << 8) as u16 as u32) << 16) as u32 == v) by (bit_vector);
}

/// Storing a half-word and reading it back at the same offset
/// round-trips.
proof fn lemma_store_half_roundtrip(mem: Seq<u8>, off: int, v: u16)
    requires
        0 <= off,
        off + 2 <= mem.len(),
    ensures
        spec_half_at(spec_store_half(mem, off, v), off) == v,
{
    assert(((v as u8) as u16 | (((v >> 8) as u8) as u16) << 8) as u16 == v) by (bit_vector);
}

/// Round-trip through work RAM: writing any value to an EWRAM or IWRAM
/// address and reading it back at the same address and width returns it.
pub proof fn lemma_ram_round_trip(bus: SysBusView, a: u32, v32: u32, v16: u16, v8: u8)
    requires
        bus.wf(),
        spec_page(a) == 0x02 || spec_page(a) == 0x03,
    ensures
        bus.write_32_step(a, v32).read_32_of(a) == v32,
        bus.write_16_step(a, v16).read_16_of(a) == v16,
        bus.write_8_step(a, v8).read_8_of(a) == v8,
{
    let a32e: int = (a & 0x3FFFC) as int;
    let a16e: int = (a & 0x3FFFE) as int;
    let a8e: int = (a & 0x3FFFF) as int;
    let a32i: int = (a & 0x7FFC) as int;
    let a16i: int = (a & 0x7FFE) as int;
    let a8i: int = (a & 0x7FFF) as int;
    assert(a & 0x3FFFC < 0x3FFFD && a & 0x3FFFE < 0x3FFFF && a & 0x3FFFF < 0x40000 && a
        & 0x7FFC < 0x7FFD && a & 0x7FFE < 0x7FFF && a & 0x7FFF < 0x8000) by (bit_vector);
    if spec_page(a) == 0x02 {
        lemma_store_word_roundtrip(bus.ewram, a32e, v32);
        lemma_store_half_roundtrip(bus.ewram, a16e, v16);
    } else {
        lemma_store_word_roundtrip(bus.iwram, a32i, v32);
        lemma_store_half_roundtrip(bus.iwram, a16i, v16);
    }
}

/// ROM is read-only under byte writes: a dropped 8-bit write to any
/// gamepak ROM page leaves every byte of the page reading as before, and
/// an in-range read still returns the ROM byte itself.
pub proof fn lemma_rom_read_only_8(bus: SysBusView, a: u32, v: u8)
    requires
        bus.wf(),
        0x08 <= spec_page(a) <= 0x0D,
    ensures
        bus.write_8_step(a, v).read_8_of(a) == bus.read_8_of(a),
        a & 0x01FFFFFF < bus.cart.size ==> bus.write_8_step(a, v).read_8_of(a) == bus.cart.bytes[(
        a & 0x01FFFFFF) as int],
{
}

/// ROM is read-only under half-word writes, away from the GPIO aliases
/// and the EEPROM window, where the cartridge routes the access to a
/// register or the serial controller instead of ROM.
pub proof fn lemma_rom_read_only_16(bus: SysBusView, a: u32, v: u16)
    requires
        bus.wf(),
        0x08 <= spec_page(a) <= 0x0D,
        !bus.cart.gpio_routed(a & 0xFFFFFFFE),
        !bus.cart.eeprom_routed(a & 0xFFFFFFFE),
    ensures
        bus.write_16_step(a, v).read_16_of(a) == bus.read_16_of(a),
{
    assert((a & 0xFFFFFFFE) >> 24 == a >> 24 && ((a & 0xFFFFFFFE) & 0xFFFFFFFE) == (a
        & 0xFFFFFFFE) && (((a & 0xFFFFFFFE) + 1) as u32) >> 24 == a >> 24) by (bit_vector);
}

/// ROM is read-only under word writes, under the same exclusions, taken
/// at both half-words of the aligned access.
pub proof fn lemma_rom_read_only_32(bus: SysBusView, a: u32, v: u32)
    requires
        bus.wf(),
        0x08 <= spec_page(a) <= 0x0D,
        !bus.cart.gpio_routed(a & 0xFFFFFFFC),
        !bus.cart.eeprom_routed(a & 0xFFFFFFFC),
        !bus.cart.gpio_routed((((a & 0xFFFFFFFC) + 2) as u32)),
        !bus.cart.eeprom_routed((((a & 0xFFFFFFFC) + 2) as u32)),
    ensures
        bus.write_32_step(a, v).read_32_of(a) == bus.read_32_of(a),
{
    assert((a & 0xFFFFFFFC) >> 24 == a >> 24 && ((a & 0xFFFFFFFC) & 0xFFFFFFFE) == (a
        & 0xFFFFFFFC) && ((a & 0xFFFFFFFC) & 0xFFFFFFFC) == (a & 0xFFFFFFFC) && (((a
        & 0xFFFFFFFC) + 1) as u32) >> 24 == a >> 24 && (((a & 0xFFFFFFFC) + 2) as u32) >> 24 == a
        >> 24 && ((((a & 0xFFFFFFFC) + 2) as u32) & 0xFFFFFFFE) == (((a & 0xFFFFFFFC)
        + 2) as u32) && (((a & 0xFFFFFFFC) + 3) as u32) >> 24 == a >> 24 && ((((((a
        & 0xFFFFFFFC) + 2) as u32) + 1) as u32)) >> 24 == a >> 24) by (bit_vector);
    assert(bus.cart.write_32_step(a & 0xFFFFFFFC, v) =~~= bus.cart);
    assert(bus.write_32_step(a, v).cart =~~= bus.cart);
}

/// The open-bus shift: on an unmapped page, the byte a read returns is
/// the matching byte of the aligned word read.
pub proof fn lemma_open_bus_shift(bus: SysBusView, a: u32)
    requires
        bus.wf(),
        spec_page(a) > 0x0F,
    ensures
        bus.read_8_of(a) == ((bus.read_32_of((a & 0xFFFFFFFC) as u32) >> (((a & 3)
            * 8) as u32)) & 0xFF) as u8,
{
    let raw = bus.open_bus_raw();
    assert((a & 0xFFFFFFFC) >> 24 == a >> 24 && ((a & 0xFFFFFFFC) & 3) == 0) by (bit_vector);
    assert((raw >> ((((a & 0xFFFFFFFC) & 3) * 8) as u32)) as u32 == raw) by (bit_vector)
        requires
            ((a & 0xFFFFFFFC) & 3) == 0,
    ;
    assert(((raw >> (((a & 3) * 8) as u32)) as u32) as u8 == ((raw >> (((a & 3) * 8) as u32))
        & 0xFF) as u8) by (bit_vector);
}


/// The EEPROM's address width follows its part: 6 bits for the 512-byte
/// part, 14 for the 8 KiB one; every command of the controller uses it.
pub proof fn lemma_eeprom_address_width_by_size(e: EepromView)
    requires
        e.wf(),
    ensures
        e.mem.len() == EEPROM_SMALL_SIZE ==> e.address_width == 6,
        e.mem.len() != EEPROM_SMALL_SIZE ==> e.address_width == 14,
{
}

/// While an address is being collected, the command leaves the address
/// phase exactly on its width'th bit: into the payload phase for a write
/// command, awaiting the stop clock for a read command.
pub proof fn lemma_eeprom_address_completes_at_width(e: EepromView, bit: bool)
    requires
        e.wf(),
        e.phase == EepromPhase::RxAddress,
    ensures
        (e.write_bit_step(bit).phase != EepromPhase::RxAddress) <==> e.bit_count + 1
            == e.address_width,
        e.bit_count + 1 == e.address_width && e.is_write ==> e.write_bit_step(bit).phase
            == EepromPhase::RxData,
        e.bit_count + 1 == e.address_width && !e.is_write ==> e.write_bit_step(bit).phase
            == EepromPhase::AwaitReadStop,
{
}

/// A 16-bit write that the cartridge routes to the EEPROM clocks exactly
/// the written value's lowest bit into the controller and touches nothing
/// else of the cartridge.
pub proof fn lemma_eeprom_serial_write(cart: CartridgeView, a: u32, v: u16)
    requires
        cart.wf(),
        cart.eeprom_routed(a),
    ensures
        cart.backup is Eeprom,
        cart.write_16_step(a, v).backup == BackupMediaView::Eeprom(
            cart.backup->Eeprom_0.write_bit_step(v & 1 == 1),
        ),
        cart.write_16_step(a, v).bytes == cart.bytes,
        cart.write_16_step(a, v).gpio == cart.gpio,
        cart.write_16_step(a, v).size == cart.size,
{
}

/// The stop clock that ends a read command loads the latched 8-byte block
/// into the shift register and starts the transmission.
pub proof fn lemma_eeprom_read_command_starts_transmit(e: EepromView, bit: bool)
    requires
        e.wf(),
        e.phase == EepromPhase::AwaitReadStop,
    ensures
        e.write_bit_step(bit).phase == EepromPhase::TxData,
        e.write_bit_step(bit).tx_index == 0,
        e.write_bit_step(bit).tx_data == spec_block_word(e.mem, e.block),
        e.write_bit_step(bit).mem == e.mem,
        e.write_bit_step(bit).block == e.block,
{
}

/// A transmitting controller yields four dummy zero bits and then the 64
/// bits of the latched block, most significant first; each clock advances
/// the position and the 68th returns the controller to idle.
pub proof fn lemma_eeprom_transmit_stream(e: EepromView)
    requires
        e.wf(),
        e.phase == EepromPhase::TxData,
        e.tx_data == spec_block_word(e.mem, e.block),
    ensures
        e.tx_index < 4 ==> e.read_bit_of() == 0,
        e.tx_index >= 4 ==> e.read_bit_of() == ((spec_block_word(e.mem, e.block) >> (67
            - e.tx_index)) & 1) as u16,
        e.read_bit_step().mem == e.mem,
        e.read_bit_step().block == e.block,
        e.read_bit_step().tx_data == e.tx_data,
        e.tx_index + 1 < 68 ==> e.read_bit_step().phase == EepromPhase::TxData
            && e.read_bit_step().tx_index == e.tx_index + 1,
        e.tx_index + 1 == 68 ==> e.read_bit_step().phase == EepromPhase::Idle,
{
}

/// A 16-bit read that the cartridge routes to the EEPROM returns the
/// controller's next serial bit and clocks it once.
pub proof fn lemma_eeprom_serial_read(cart: CartridgeView, a: u32)
    requires
        cart.wf(),
        cart.eeprom_routed(a),
    ensures
        cart.backup is Eeprom,
        cart.read_16_of(a) == cart.backup->Eeprom_0.read_bit_of(),
        cart.read_16_step(a).backup == BackupMediaView::Eeprom(
            cart.backup->Eeprom_0.read_bit_step(),
        ),
        cart.read_16_step(a).bytes == cart.bytes,
        cart.read_16_step(a).gpio == cart.gpio,
        cart.read_16_step(a).size == cart.size,
{
}

} // verus!

use gba_core::BackupType;
use gba_core::CpuPipelineRegs;
use gba_core::CpuState;
use gba_core::GamepakBuilder;
use gba_core::IoDevices;
use gba_core::MemoryAccessType;
use gba_core::MemoryAccessType::NonSequential;
use gba_core::MemoryAccessType::Sequential;
use gba_core::MemoryAccessWidth;
use gba_core::MemoryAccessWidth::MemoryAccess16;
use gba_core::MemoryAccessWidth::MemoryAccess32;
use gba_core::MemoryAccessWidth::MemoryAccess8;
use gba_core::SysBus;

fn make_rom(len: usize) -> Vec<u8> {
    let mut rom = vec![0u8; len];
    for i in 0..len {
        rom[i] = (i % 251) as u8;
    }
    rom
}

fn make_bus(backup: BackupType) -> SysBus {
    let rom = make_rom(0x1000);
    let cart = GamepakBuilder::new()
        .with_rom(rom)
        .with_backup_type(backup)
        .build()
        .unwrap();
    let mut bios = vec![0u8; 0x4000];
    bios[0] = 0x11;
    bios[1] = 0x22;
    bios[2] = 0x33;
    bios[3] = 0x44;
    bios[4] = 0x55;
    bios[5] = 0x66;
    bios[6] = 0x77;
    bios[7] = 0x88;
    SysBus::new(IoDevices::new(), bios, cart)
}

fn set_cpu(bus: &mut SysBus, pc: u32, state: CpuState, prefetched: u32, decoded: u32) {
    bus.init(CpuPipelineRegs {
        pc,
        state,
        prefetched_opcode: prefetched,
        decoded_opcode: decoded,
    });
}

#[test]
fn ewram_alias() {
    let mut bus = make_bus(BackupType::Sram);
    bus.write_32(0x0200_0004, 0xDEADBEEF);
    assert_eq!(bus.read_32(0x0240_0004), 0xDEADBEEF);
}

#[test]
fn ewram_mirror_all_widths() {
    let mut bus = make_bus(BackupType::Sram);
    bus.write_8(0x0200_0010, 0x5A);
    assert_eq!(bus.read_8(0x0204_0010), 0x5A);
    bus.write_16(0x0200_0020, 0xBEEF);
    assert_eq!(bus.read_16(0x02FC_0020), 0xBEEF);
}

#[test]
fn iwram_round_trip_and_mirror() {
    let mut bus = make_bus(BackupType::Sram);
    bus.write_32(0x0300_0000, 0xCAFEBABE);
    assert_eq!(bus.read_32(0x0300_0000), 0xCAFEBABE);
    assert_eq!(bus.read_32(0x0300_8000), 0xCAFEBABE);
    bus.write_16(0x0300_0100, 0x1234);
    assert_eq!(bus.read_16(0x0300_0100), 0x1234);
    bus.write_8(0x0300_0200, 0x77);
    assert_eq!(bus.read_8(0x0300_0200), 0x77);
}

#[test]
fn bios_protection_scenario() {
    let mut bus = make_bus(BackupType::Sram);
    // the cache starts empty; an out-of-BIOS fetch sees it, not the ROM
    set_cpu(&mut bus, 0x0800_0000, CpuState::ARM, 0, 0);
    assert_eq!(bus.read_32(0x0000_0000), 0);
    // back inside BIOS the real word is read and cached
    set_cpu(&mut bus, 0x100, CpuState::ARM, 0, 0);
    assert_eq!(bus.read_32(0x0000_0000), 0x44332211);
    // outside again, any BIOS address replays the cached word
    set_cpu(&mut bus, 0x0800_0000, CpuState::ARM, 0, 0);
    assert_eq!(bus.read_32(0x0000_0004), 0x44332211);
    assert_eq!(bus.read_16(0x0000_0004), 0x2211);
    assert_eq!(bus.read_8(0x0000_0005), 0x22);
}

#[test]
fn bios_narrow_reads_shift_the_word() {
    let mut bus = make_bus(BackupType::Sram);
    set_cpu(&mut bus, 0x100, CpuState::ARM, 0, 0);
    assert_eq!(bus.read_16(0x0000_0006), 0x8877);
    assert_eq!(bus.read_8(0x0000_0002), 0x33);
}

#[test]
fn bios_writes_are_dropped() {
    let mut bus = make_bus(BackupType::Sram);
    set_cpu(&mut bus, 0x100, CpuState::ARM, 0, 0);
    bus.write_32(0x0000_0000, 0xFFFFFFFF);
    assert_eq!(bus.read_32(0x0000_0000), 0x44332211);
}

#[test]
fn rom_is_read_only() {
    let mut bus = make_bus(BackupType::Sram);
    let expected = bus.read_8(0x0800_0010);
    bus.write_8(0x0800_0010, 0x99);
    assert_eq!(bus.read_8(0x0800_0010), expected);
    let word = bus.read_32(0x0800_0020);
    bus.write_32(0x0800_0020, 0x12345678);
    assert_eq!(bus.read_32(0x0800_0020), word);
}

#[test]
fn rom_reads_return_cart_bytes() {
    let mut bus = make_bus(BackupType::Sram);
    // byte 0x10 of the generated image is 0x10
    assert_eq!(bus.read_8(0x0800_0010), 0x10);
    assert_eq!(bus.debug_read_8(0x0800_0010), 0x10);
}

#[test]
fn rom_past_end_floats_to_address_value() {
    let mut bus = make_bus(BackupType::Sram);
    // the image is 0x1000 bytes; beyond it the bus floats to addr / 2
    let a: u32 = 0x0800_2000;
    let expected = ((a >> 1) & 0xFFFF) as u16;
    assert_eq!(bus.read_16(a), expected);
}

#[test]
fn open_bus_arm_state() {
    let mut bus = make_bus(BackupType::Sram);
    set_cpu(&mut bus, 0x0800_0000, CpuState::ARM, 0x12345678, 0);
    assert_eq!(bus.read_32(0x1000_0000), 0x12345678);
    assert_eq!(bus.read_8(0x1000_0001), 0x56);
    assert_eq!(bus.read_16(0x1000_0002), 0x1234);
}

#[test]
fn open_bus_shift_matches_word() {
    let mut bus = make_bus(BackupType::Sram);
    set_cpu(&mut bus, 0x0800_0000, CpuState::ARM, 0xA1B2C3D4, 0);
    for k in 0..4u32 {
        let a = 0x1100_0000 + k;
        let byte = bus.read_8(a);
        let word = bus.read_32(a & !3);
        assert_eq!(byte as u32, (word >> ((a & 3) * 8)) & 0xFF);
    }
}

#[test]
fn open_bus_thumb_ewram() {
    let mut bus = make_bus(BackupType::Sram);
    set_cpu(&mut bus, 0x0200_0000, CpuState::THUMB, 0xABCD, 0x1111);
    assert_eq!(bus.read_32(0x1000_0000), 0xABCDABCD);
}

#[test]
fn open_bus_thumb_iwram_alignment() {
    let mut bus = make_bus(BackupType::Sram);
    // aligned program counter: decoded in the high half
    set_cpu(&mut bus, 0x0300_0000, CpuState::THUMB, 0xBBBB, 0xAAAA);
    assert_eq!(bus.read_32(0x1000_0000), 0xAAAABBBB);
    // unaligned: prefetched in the high half
    set_cpu(&mut bus, 0x0300_0002, CpuState::THUMB, 0xBBBB, 0xAAAA);
    assert_eq!(bus.read_32(0x1000_0000), 0xBBBBAAAA);
}

#[test]
fn palram_vram_oam_round_trip() {
    let mut bus = make_bus(BackupType::Sram);
    bus.write_16(0x0500_0000, 0x7FFF);
    assert_eq!(bus.read_16(0x0500_0400), 0x7FFF);
    bus.write_16(0x0600_0000, 0x1234);
    assert_eq!(bus.read_16(0x0600_0000), 0x1234);
    // the VRAM window's second half mirrors its last 32 KiB
    bus.write_16(0x0601_0000, 0x4321);
    assert_eq!(bus.read_16(0x0601_8000), 0x4321);
    bus.write_16(0x0700_0000, 0x9876);
    assert_eq!(bus.read_16(0x0700_0400), 0x9876);
}

#[test]
fn iomem_round_trip_and_postflag_remap() {
    let mut bus = make_bus(BackupType::Sram);
    bus.write_16(0x0400_0000, 0x00FF);
    assert_eq!(bus.read_16(0x0400_0000), 0x00FF);
    // the register block is mirrored every kibibyte
    assert_eq!(bus.read_16(0x0400_0400), 0x00FF);
    // the isolated post-boot flag area: low half-word 0x8000 remaps to 0x800
    bus.write_8(0x0400_8000, 0x01);
    assert_eq!(bus.read_8(0x0400_8000), 0x01);
    assert_eq!(bus.read_8(0x0401_8000), 0x01);
}

#[test]
fn sram_byte_mirrors() {
    let mut bus = make_bus(BackupType::Sram);
    bus.write_8(0x0E00_0000, 0x42);
    assert_eq!(bus.read_8(0x0E00_8000), 0x42);
    assert_eq!(bus.read_8(0x0F00_0000), 0x42);
}

#[test]
fn waitcnt_reprogramming() {
    let mut bus = make_bus(BackupType::Sram);
    // ws0 first-access selector 0b11: 8 wait cycles
    bus.write_16(0x0400_0204, 0b1100);
    assert_eq!(
        bus.get_cycles(
            0x0800_0000,
            MemoryAccessType::NonSequential,
            MemoryAccessWidth::MemoryAccess16
        ),
        9
    );
}

#[test]
fn default_gamepak_timings() {
    let bus = make_bus(BackupType::Sram);
    assert_eq!(bus.get_cycles(0x0800_0000, NonSequential, MemoryAccess16), 5);
    assert_eq!(bus.get_cycles(0x0800_0000, Sequential, MemoryAccess16), 3);
    assert_eq!(bus.get_cycles(0x0800_0000, NonSequential, MemoryAccess32), 8);
    assert_eq!(bus.get_cycles(0x0800_0000, Sequential, MemoryAccess32), 6);
    assert_eq!(bus.get_cycles(0x0A00_0000, Sequential, MemoryAccess16), 5);
    assert_eq!(bus.get_cycles(0x0C00_0000, Sequential, MemoryAccess16), 9);
    assert_eq!(bus.get_cycles(0x0200_0000, NonSequential, MemoryAccess8), 3);
    assert_eq!(bus.get_cycles(0x0200_0000, NonSequential, MemoryAccess32), 6);
    assert_eq!(bus.get_cycles(0x0300_0000, Sequential, MemoryAccess32), 1);
    assert_eq!(bus.get_cycles(0x0E00_0000, NonSequential, MemoryAccess8), 5);
    // pages past the address map cost the single base cycle
    assert_eq!(bus.get_cycles(0x1000_0000, NonSequential, MemoryAccess32), 1);
}

#[test]
fn rom_cycle_decomposition() {
    let bus = make_bus(BackupType::Sram);
    for page in [0x08u32, 0x09, 0x0A, 0x0B, 0x0C, 0x0D] {
        let a = page << 24;
        let n16 = bus.get_cycles(a, NonSequential, MemoryAccess16);
        let s16 = bus.get_cycles(a, Sequential, MemoryAccess16);
        assert_eq!(bus.get_cycles(a, NonSequential, MemoryAccess32), n16 + s16);
        assert_eq!(bus.get_cycles(a, Sequential, MemoryAccess32), 2 * s16);
    }
}

#[test]
fn waitcnt_update_idempotent() {
    let mut bus = make_bus(BackupType::Sram);
    bus.write_16(0x0400_0204, 0x4317);
    let n16 = bus.cycle_luts.n_cycles16;
    let s16 = bus.cycle_luts.s_cycles16;
    let n32 = bus.cycle_luts.n_cycles32;
    let s32 = bus.cycle_luts.s_cycles32;
    bus.write_16(0x0400_0204, 0x4317);
    assert_eq!(bus.cycle_luts.n_cycles16, n16);
    assert_eq!(bus.cycle_luts.s_cycles16, s16);
    assert_eq!(bus.cycle_luts.n_cycles32, n32);
    assert_eq!(bus.cycle_luts.s_cycles32, s32);
}

#[test]
fn debug_read_has_no_side_effects() {
    let mut bus = make_bus(BackupType::Sram);
    set_cpu(&mut bus, 0x0800_0000, CpuState::ARM, 0, 0);
    // a debug read of BIOS sees the bytes even while protection is active
    assert_eq!(bus.debug_read_8(0x0000_0000), 0x11);
    // and an unmapped page reads as zero, not open bus
    assert_eq!(bus.debug_read_8(0x1000_0000), 0);
}

#[test]
fn mnemonics() {
    assert_eq!(MemoryAccessType::NonSequential.mnemonic(), "N");
    assert_eq!(MemoryAccessType::Sequential.mnemonic(), "S");
}

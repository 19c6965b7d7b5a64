use gba_core::BackupMedia;
use gba_core::BackupType;
use gba_core::GamepakBuilder;
use gba_core::IoDevices;
use gba_core::MemoryAccessType::NonSequential;
use gba_core::MemoryAccessType::Sequential;
use gba_core::MemoryAccessWidth::MemoryAccess16;
use gba_core::MemoryAccessWidth::MemoryAccess8;
use gba_core::SysBus;
use gba_core::WaitControl;

fn make_bus(backup: BackupType) -> SysBus {
    let cart = GamepakBuilder::new()
        .with_rom(vec![0u8; 0x1000])
        .with_backup_type(backup)
        .build()
        .unwrap();
    SysBus::new(IoDevices::new(), vec![0u8; 0x4000], cart)
}

#[test]
fn waitcnt_field_extraction() {
    let w = WaitControl::new(0xFFFF);
    assert_eq!(w.sram_wait_control(), 3);
    assert_eq!(w.ws0_first_access(), 3);
    assert_eq!(w.ws0_second_access(), 1);
    assert_eq!(w.ws1_first_access(), 3);
    assert_eq!(w.ws1_second_access(), 1);
    assert_eq!(w.ws2_first_access(), 3);
    assert_eq!(w.ws2_second_access(), 1);
    let w = WaitControl::new(0b0000_0000_1010_0110);
    assert_eq!(w.sram_wait_control(), 2);
    assert_eq!(w.ws0_first_access(), 1);
    assert_eq!(w.ws0_second_access(), 0);
    assert_eq!(w.ws1_first_access(), 1);
    assert_eq!(w.ws1_second_access(), 1);
}

#[test]
fn on_waitcnt_written_reprograms_directly() {
    let mut bus = make_bus(BackupType::Sram);
    bus.on_waitcnt_written(WaitControl::new(0b1100));
    assert_eq!(bus.get_cycles(0x0800_0000, NonSequential, MemoryAccess16), 9);
    // sequential second access selector still 0: 2-cycle second access
    assert_eq!(bus.get_cycles(0x0800_0000, Sequential, MemoryAccess16), 3);
    // an untouched RAM page keeps its timing
    assert_eq!(bus.get_cycles(0x0200_0000, NonSequential, MemoryAccess8), 3);
}

#[test]
fn sram_wait_applies_to_sram_pages() {
    let mut bus = make_bus(BackupType::Sram);
    // SRAM wait selector 3: 8 wait cycles at every width and class
    bus.on_waitcnt_written(WaitControl::new(0b11));
    assert_eq!(bus.get_cycles(0x0E00_0000, NonSequential, MemoryAccess8), 9);
    assert_eq!(bus.get_cycles(0x0F00_0000, Sequential, MemoryAccess16), 9);
}

#[test]
fn sram_half_word_reads_compose_bytes() {
    let mut bus = make_bus(BackupType::Sram);
    bus.write_8(0x0E00_0010, 0x34);
    bus.write_8(0x0E00_0011, 0x12);
    assert_eq!(bus.read_16(0x0E00_0010), 0x1234);
}

#[test]
fn large_eeprom_uses_wide_addresses() {
    let save = vec![0u8; 0x2000];
    let cart = GamepakBuilder::new()
        .with_rom(vec![0u8; 0x1000])
        .with_backup_type(BackupType::Eeprom)
        .with_save(save)
        .build()
        .unwrap();
    let mut bus = SysBus::new(IoDevices::new(), vec![0u8; 0x4000], cart);
    // write command with a 14-bit block address of 1
    bus.write_16(0x0DFF_FF00, 1);
    bus.write_16(0x0DFF_FF00, 1);
    for _ in 0..13 {
        bus.write_16(0x0DFF_FF00, 0);
    }
    bus.write_16(0x0DFF_FF00, 1);
    // 64 payload bits: only the first is set
    bus.write_16(0x0DFF_FF00, 1);
    for _ in 0..63 {
        bus.write_16(0x0DFF_FF00, 0);
    }
    match &bus.cartridge.backup {
        BackupMedia::Eeprom(e) => {
            assert_eq!(e.address_width, 14);
            assert_eq!(e.mem[8], 0x80);
            assert_eq!(e.mem[0], 0);
        },
        _ => panic!("expected EEPROM backup"),
    }
}

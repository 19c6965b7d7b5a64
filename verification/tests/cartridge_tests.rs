use gba_core::BackupMedia;
use gba_core::BackupType;
use gba_core::CartridgeHeader;
use gba_core::GamepakBuilder;
use gba_core::IoDevices;
use gba_core::LoadError;
use gba_core::SysBus;

fn make_rom(len: usize) -> Vec<u8> {
    let mut rom = vec![0u8; len];
    for i in 0..len {
        rom[i] = (i % 251) as u8;
    }
    rom
}

fn make_bus(backup: BackupType) -> SysBus {
    let cart = GamepakBuilder::new()
        .with_rom(make_rom(0x1000))
        .with_backup_type(backup)
        .build()
        .unwrap();
    SysBus::new(IoDevices::new(), vec![0u8; 0x4000], cart)
}

#[test]
fn header_fields_are_parsed() {
    let mut rom = make_rom(0x1000);
    let title = b"DOLPHINSWIM0";
    let code = b"AGBC";
    let maker = b"01";
    rom[0xA0..0xAC].copy_from_slice(title);
    rom[0xAC..0xB0].copy_from_slice(code);
    rom[0xB0..0xB2].copy_from_slice(maker);
    rom[0xBD] = 0x55;
    let header = CartridgeHeader::parse(&rom).unwrap();
    assert_eq!(header.game_title, title.to_vec());
    assert_eq!(header.game_code, code.to_vec());
    assert_eq!(header.maker_code, maker.to_vec());
    assert_eq!(header.checksum, 0x55);
}

#[test]
fn header_checksum_formula() {
    let mut rom = vec![0u8; 0x1000];
    // all header bytes zero: the sum of (-1 - byte) over the 29 bytes is
    // -29, which masks to 0xE3
    assert_eq!(gba_core::compute_checksum(&rom), 0xE3);
    rom[0xBD] = 0xE3;
    let header = CartridgeHeader::parse(&rom).unwrap();
    assert!(header.checksum_ok(&rom));
    rom[0xBD] = 0xE4;
    let header = CartridgeHeader::parse(&rom).unwrap();
    assert!(!header.checksum_ok(&rom));
}

#[test]
fn too_short_rom_is_rejected() {
    let err = GamepakBuilder::new().with_rom(vec![0u8; 16]).build().unwrap_err();
    assert_eq!(err, LoadError::InvalidHeader);
    let err = GamepakBuilder::new().build().unwrap_err();
    assert_eq!(err, LoadError::InvalidHeader);
}

#[test]
fn save_size_conflicts_are_rejected() {
    let err = GamepakBuilder::new()
        .with_rom(make_rom(0x1000))
        .with_backup_type(BackupType::Sram)
        .with_save(vec![0u8; 123])
        .build()
        .unwrap_err();
    assert_eq!(err, LoadError::BackupConflict);
}

#[test]
fn save_bytes_are_adopted() {
    let mut save = vec![0u8; 0x8000];
    save[7] = 0xAB;
    let cart = GamepakBuilder::new()
        .with_rom(make_rom(0x1000))
        .with_backup_type(BackupType::Sram)
        .with_save(save)
        .build()
        .unwrap();
    match &cart.backup {
        BackupMedia::Sram(bytes) => assert_eq!(bytes[7], 0xAB),
        _ => panic!("expected SRAM backup"),
    }
}

#[test]
fn backup_type_is_detected_from_magic() {
    let mut rom = make_rom(0x1000);
    rom[0x400..0x406].copy_from_slice(b"SRAM_V");
    let cart = GamepakBuilder::new().with_rom(rom).build().unwrap();
    assert!(matches!(cart.backup, BackupMedia::Sram(_)));

    let mut rom = make_rom(0x1000);
    rom[0x400..0x408].copy_from_slice(b"EEPROM_V");
    let cart = GamepakBuilder::new().with_rom(rom).build().unwrap();
    assert!(matches!(cart.backup, BackupMedia::Eeprom(_)));

    let mut rom = make_rom(0x1000);
    rom[0x400..0x409].copy_from_slice(b"FLASH1M_V");
    let cart = GamepakBuilder::new().with_rom(rom).build().unwrap();
    assert!(matches!(cart.backup, BackupMedia::Flash(_)));

    let rom = make_rom(0x1000);
    let cart = GamepakBuilder::new().with_rom(rom).build().unwrap();
    assert!(matches!(cart.backup, BackupMedia::Undetected));
}

#[test]
fn detect_backup_type_directly() {
    let mut rom = make_rom(0x800);
    rom[0x100..0x10A].copy_from_slice(b"FLASH512_V");
    assert_eq!(gba_core::detect_backup_type(&rom), Some(BackupType::Flash512));
    let mut rom = make_rom(0x800);
    rom[0x100..0x107].copy_from_slice(b"FLASH_V");
    assert_eq!(gba_core::detect_backup_type(&rom), Some(BackupType::Flash));
    let rom = make_rom(0x800);
    assert_eq!(gba_core::detect_backup_type(&rom), None);
}

#[test]
fn earlier_magic_wins() {
    let mut rom = make_rom(0x1000);
    rom[0x400..0x408].copy_from_slice(b"EEPROM_V");
    rom[0x500..0x506].copy_from_slice(b"SRAM_V");
    let cart = GamepakBuilder::new().with_rom(rom).build().unwrap();
    assert!(matches!(cart.backup, BackupMedia::Eeprom(_)));
}

#[test]
fn cartridge_getters() {
    let cart = GamepakBuilder::new()
        .with_rom(make_rom(0x1000))
        .with_gpio()
        .build()
        .unwrap();
    assert!(cart.get_gpio().is_some());
    assert!(cart.get_symbols().is_none());
}

#[test]
fn is_gpio_access_offsets() {
    assert!(gba_core::is_gpio_access(0x0800_00C4));
    assert!(gba_core::is_gpio_access(0x0800_00C6));
    assert!(gba_core::is_gpio_access(0x0800_00C8));
    assert!(!gba_core::is_gpio_access(0x0800_00C2));
    assert!(gba_core::is_gpio_access(0x0A00_00C4));
}

#[test]
fn gpio_registers_shadow_rom() {
    let cart = GamepakBuilder::new()
        .with_rom(make_rom(0x1000))
        .with_gpio()
        .build()
        .unwrap();
    let mut bus = SysBus::new(IoDevices::new(), vec![0u8; 0x4000], cart);
    bus.write_16(0x0800_00C8, 0x0001);
    assert_eq!(bus.read_16(0x0800_00C8), 0x0001);
    // data and direction keep their four pin bits only
    bus.write_16(0x0800_00C4, 0xFFFF);
    assert_eq!(bus.read_16(0x0800_00C4), 0x000F);
    bus.write_16(0x0800_00C6, 0x0012);
    assert_eq!(bus.read_16(0x0800_00C6), 0x0002);
}

#[test]
fn without_gpio_the_rom_bytes_show() {
    let mut bus = make_bus(BackupType::Sram);
    let lo = 0xC4u32 % 251;
    let hi = 0xC5u32 % 251;
    assert_eq!(bus.read_16(0x0800_00C4), (lo | (hi << 8)) as u16);
}

#[test]
fn flash_chip_id() {
    let mut bus = make_bus(BackupType::Flash1M);
    bus.write_8(0x0E00_5555, 0xAA);
    bus.write_8(0x0E00_2AAA, 0x55);
    bus.write_8(0x0E00_5555, 0x90);
    assert_eq!(bus.read_8(0x0E00_0000), 0x62);
    assert_eq!(bus.read_8(0x0E00_0001), 0x13);
    // leave identification mode: the erased array reads back
    bus.write_8(0x0E00_5555, 0xAA);
    bus.write_8(0x0E00_2AAA, 0x55);
    bus.write_8(0x0E00_5555, 0xF0);
    assert_eq!(bus.read_8(0x0E00_0000), 0xFF);
}

#[test]
fn flash_small_chip_id() {
    let mut bus = make_bus(BackupType::Flash512);
    bus.write_8(0x0E00_5555, 0xAA);
    bus.write_8(0x0E00_2AAA, 0x55);
    bus.write_8(0x0E00_5555, 0x90);
    assert_eq!(bus.read_8(0x0E00_0000), 0x32);
    assert_eq!(bus.read_8(0x0E00_0001), 0x1B);
}

fn flash_command(bus: &mut SysBus, cmd: u8) {
    bus.write_8(0x0E00_5555, 0xAA);
    bus.write_8(0x0E00_2AAA, 0x55);
    bus.write_8(0x0E00_5555, cmd);
}

#[test]
fn flash_byte_write_and_sector_erase() {
    let mut bus = make_bus(BackupType::Flash);
    flash_command(&mut bus, 0xA0);
    bus.write_8(0x0E00_1234, 0x5C);
    assert_eq!(bus.read_8(0x0E00_1234), 0x5C);
    flash_command(&mut bus, 0xA0);
    bus.write_8(0x0E00_2234, 0x7D);
    // erase the 4 KiB sector holding the first byte: the command byte is
    // written to the sector itself
    flash_command(&mut bus, 0x80);
    bus.write_8(0x0E00_5555, 0xAA);
    bus.write_8(0x0E00_2AAA, 0x55);
    bus.write_8(0x0E00_1000, 0x30);
    assert_eq!(bus.read_8(0x0E00_1234), 0xFF);
    assert_eq!(bus.read_8(0x0E00_2234), 0x7D);
}

#[test]
fn flash_chip_erase() {
    let mut bus = make_bus(BackupType::Flash);
    flash_command(&mut bus, 0xA0);
    bus.write_8(0x0E00_0040, 0x33);
    flash_command(&mut bus, 0x80);
    flash_command(&mut bus, 0x10);
    assert_eq!(bus.read_8(0x0E00_0040), 0xFF);
}

#[test]
fn flash_bank_switch() {
    let mut bus = make_bus(BackupType::Flash1M);
    flash_command(&mut bus, 0xA0);
    bus.write_8(0x0E00_0040, 0x11);
    // switch to the second 64 KiB bank: the same offset reads erased
    flash_command(&mut bus, 0xB0);
    bus.write_8(0x0E00_0000, 1);
    assert_eq!(bus.read_8(0x0E00_0040), 0xFF);
    flash_command(&mut bus, 0xA0);
    bus.write_8(0x0E00_0040, 0x22);
    // and back to the first
    flash_command(&mut bus, 0xB0);
    bus.write_8(0x0E00_0000, 0);
    assert_eq!(bus.read_8(0x0E00_0040), 0x11);
}

fn eeprom_clock_in(bus: &mut SysBus, bit: u16) {
    bus.write_16(0x0DFF_FF00, bit);
}

#[test]
fn eeprom_address_width_latching() {
    let mut bus = make_bus(BackupType::Eeprom);
    // a small EEPROM: a write command carries a 6-bit block address
    eeprom_clock_in(&mut bus, 1);
    eeprom_clock_in(&mut bus, 1);
    // block 3
    for bit in [0u16, 0, 0, 0, 1, 1] {
        eeprom_clock_in(&mut bus, bit);
    }
    // 64 payload bits: the first and the last are set
    eeprom_clock_in(&mut bus, 1);
    for _ in 0..62 {
        eeprom_clock_in(&mut bus, 0);
    }
    eeprom_clock_in(&mut bus, 1);
    match &bus.cartridge.backup {
        BackupMedia::Eeprom(e) => {
            assert_eq!(e.mem[3 * 8], 0x80);
            assert_eq!(e.mem[3 * 8 + 7], 0x01);
        },
        _ => panic!("expected EEPROM backup"),
    }
    // read the block back: command, address, stop
    eeprom_clock_in(&mut bus, 1);
    eeprom_clock_in(&mut bus, 0);
    for bit in [0u16, 0, 0, 0, 1, 1] {
        eeprom_clock_in(&mut bus, bit);
    }
    eeprom_clock_in(&mut bus, 0);
    // 4 dummy bits, then the 64 data bits most significant first
    let mut bits = Vec::new();
    for _ in 0..68 {
        bits.push(bus.read_16(0x0DFF_FF00) & 1);
    }
    assert_eq!(&bits[0..4], &[0, 0, 0, 0]);
    assert_eq!(bits[4], 1);
    for i in 5..67 {
        assert_eq!(bits[i], 0);
    }
    assert_eq!(bits[67], 1);
}

#[test]
fn eeprom_idle_reads_ready() {
    let mut bus = make_bus(BackupType::Eeprom);
    assert_eq!(bus.read_16(0x0DFF_FF00) & 1, 1);
}

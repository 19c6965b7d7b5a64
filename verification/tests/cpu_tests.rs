use gba_core::ArmInstruction;
use gba_core::ArmShiftType;
use gba_core::BackupType;
use gba_core::Core;
use gba_core::CpuError;
use gba_core::CpuPipelineAction;
use gba_core::CpuState;
use gba_core::GamepakBuilder;
use gba_core::IoDevices;
use gba_core::SysBus;

fn make_rom(len: usize) -> Vec<u8> {
    let mut rom = vec![0u8; len];
    for i in 0..len {
        rom[i] = (i % 251) as u8;
    }
    rom
}

fn make_bus() -> SysBus {
    let cart = GamepakBuilder::new()
        .with_rom(make_rom(0x1000))
        .with_backup_type(BackupType::Sram)
        .build()
        .unwrap();
    SysBus::new(IoDevices::new(), vec![0u8; 0x4000], cart)
}

fn insn(raw: u32, pc: u32) -> ArmInstruction {
    ArmInstruction { raw, pc }
}

#[test]
fn branch_charges_refill_cycles() {
    let mut bus = make_bus();
    let mut core = Core::new();
    core.pc = 0x0800_0000;
    // B +4 (offset field 1)
    let r = core.exec_arm(&mut bus, insn(0xEA00_0001, 0x0800_0000));
    assert_eq!(r, Ok(CpuPipelineAction::Flush));
    assert_eq!(core.pc, 0x0800_0004);
    // 1N at the old counter (8) + 2S at the target (6 + 6)
    assert_eq!(core.cycles, 20);
}

#[test]
fn branch_with_link_saves_return_address() {
    let mut bus = make_bus();
    let mut core = Core::new();
    core.pc = 0x0300_0100;
    let r = core.exec_arm(&mut bus, insn(0xEB00_0001, 0x0300_0100));
    assert_eq!(r, Ok(CpuPipelineAction::Flush));
    assert_eq!(core.gpr[14], 0x0300_0100);
    assert_eq!(core.pc, 0x0300_0104);
}

#[test]
fn branch_backwards() {
    let mut bus = make_bus();
    let mut core = Core::new();
    core.pc = 0x0300_0100;
    // offset field of all ones: displacement -4
    let r = core.exec_arm(&mut bus, insn(0xEAFF_FFFF, 0x0300_0100));
    assert_eq!(r, Ok(CpuPipelineAction::Flush));
    assert_eq!(core.pc, 0x0300_00FC);
}

#[test]
fn branch_exchange_switches_state() {
    let mut bus = make_bus();
    let mut core = Core::new();
    core.pc = 0x0800_0000;
    core.gpr[0] = 0x0300_0001;
    // BX r0
    let r = core.exec_arm(&mut bus, insn(0xE12F_FF10, 0x0800_0000));
    assert_eq!(r, Ok(CpuPipelineAction::Flush));
    assert_eq!(core.cpsr.state, CpuState::THUMB);
    assert_eq!(core.pc, 0x0300_0000);
    // 1N on the gamepak (8) + 2S in IWRAM (1 + 1)
    assert_eq!(core.cycles, 10);
}

#[test]
fn software_interrupt_vectors() {
    let mut bus = make_bus();
    let mut core = Core::new();
    core.pc = 0x0300_0040;
    let r = core.exec_arm(&mut bus, insn(0xEF00_0000, 0x0300_0040));
    assert_eq!(r, Ok(CpuPipelineAction::Flush));
    assert_eq!(core.pc, 0x08);
    assert_eq!(core.gpr[14], 0x0300_0040);
    assert_eq!(core.cpsr.state, CpuState::ARM);
}

#[test]
fn failed_condition_only_advances_the_clock() {
    let mut bus = make_bus();
    let mut core = Core::new();
    core.pc = 0x0300_0000;
    // MOVEQ r0, #1 with the zero flag clear
    let r = core.exec_arm(&mut bus, insn(0x03A0_0001, 0x0300_0000));
    assert_eq!(r, Ok(CpuPipelineAction::IncPC));
    assert_eq!(core.gpr[0], 0);
    // 1S at the following word (1) + 1I
    assert_eq!(core.cycles, 2);
}

#[test]
fn mov_immediate() {
    let mut bus = make_bus();
    let mut core = Core::new();
    core.pc = 0x0300_0000;
    // MOV r0, #42
    let r = core.exec_arm(&mut bus, insn(0xE3A0_002A, 0x0300_0000));
    assert_eq!(r, Ok(CpuPipelineAction::IncPC));
    assert_eq!(core.gpr[0], 42);
    assert_eq!(core.cycles, 1);
}

#[test]
fn mov_rotated_immediate() {
    let mut bus = make_bus();
    let mut core = Core::new();
    core.pc = 0x0300_0000;
    // MOV r0, #0xFF rotated right by 8: 0xFF000000
    let r = core.exec_arm(&mut bus, insn(0xE3A0_04FF, 0x0300_0000));
    assert_eq!(r, Ok(CpuPipelineAction::IncPC));
    assert_eq!(core.gpr[0], 0xFF00_0000);
}

#[test]
fn add_registers() {
    let mut bus = make_bus();
    let mut core = Core::new();
    core.pc = 0x0300_0000;
    core.gpr[1] = 30;
    core.gpr[2] = 12;
    // ADD r0, r1, r2
    let r = core.exec_arm(&mut bus, insn(0xE081_0002, 0x0300_0000));
    assert_eq!(r, Ok(CpuPipelineAction::IncPC));
    assert_eq!(core.gpr[0], 42);
}

#[test]
fn shifted_operand_charges_internal_cycle() {
    let mut bus = make_bus();
    let mut core = Core::new();
    core.pc = 0x0300_0000;
    core.gpr[1] = 0x10;
    core.gpr[3] = 2;
    // MOV r0, r1, LSL r3
    let r = core.exec_arm(&mut bus, insn(0xE1A0_0311, 0x0300_0000));
    assert_eq!(r, Ok(CpuPipelineAction::IncPC));
    assert_eq!(core.gpr[0], 0x40);
    // 1S (1) + 1I for the register-specified shift
    assert_eq!(core.cycles, 2);
}

#[test]
fn shift_amount_from_pc_is_illegal() {
    let mut bus = make_bus();
    let mut core = Core::new();
    core.pc = 0x0300_0000;
    // MOV r0, r1, LSL r15
    let r = core.exec_arm(&mut bus, insn(0xE1A0_0F11, 0x0300_0000));
    assert_eq!(r, Err(CpuError::IllegalInstruction));
}

#[test]
fn cmp_sets_zero_flag() {
    let mut bus = make_bus();
    let mut core = Core::new();
    core.pc = 0x0300_0000;
    core.gpr[0] = 7;
    // CMP r0, r0
    let r = core.exec_arm(&mut bus, insn(0xE150_0000, 0x0300_0000));
    assert_eq!(r, Ok(CpuPipelineAction::IncPC));
    assert!(core.cpsr.z);
    assert!(!core.cpsr.n);
    // the compared register keeps its value
    assert_eq!(core.gpr[0], 7);
}

#[test]
fn cmp_negative_result_sets_n() {
    let mut bus = make_bus();
    let mut core = Core::new();
    core.pc = 0x0300_0000;
    // CMP r0, #1 with r0 zero: the difference wraps negative
    let r = core.exec_arm(&mut bus, insn(0xE350_0001, 0x0300_0000));
    assert_eq!(r, Ok(CpuPipelineAction::IncPC));
    assert!(core.cpsr.n);
    assert!(!core.cpsr.z);
    assert!(!core.cpsr.c);
}

#[test]
fn logical_ops_compute() {
    let mut bus = make_bus();
    let mut core = Core::new();
    core.pc = 0x0300_0000;
    core.gpr[1] = 0b1100;
    core.gpr[2] = 0b1010;
    // AND r0, r1, r2
    let r = core.exec_arm(&mut bus, insn(0xE001_0002, 0x0300_0000));
    assert_eq!(r, Ok(CpuPipelineAction::IncPC));
    assert_eq!(core.gpr[0], 0b1000);
    // EOR r3, r1, r2
    let r = core.exec_arm(&mut bus, insn(0xE021_3002, 0x0300_0000));
    assert_eq!(r, Ok(CpuPipelineAction::IncPC));
    assert_eq!(core.gpr[3], 0b0110);
    // MVN r4, r2
    let r = core.exec_arm(&mut bus, insn(0xE1E0_4002, 0x0300_0000));
    assert_eq!(r, Ok(CpuPipelineAction::IncPC));
    assert_eq!(core.gpr[4], !0b1010u32);
}

#[test]
fn mov_to_pc_flushes() {
    let mut bus = make_bus();
    let mut core = Core::new();
    core.pc = 0x0300_0000;
    core.gpr[1] = 0x0300_0200;
    // MOV r15, r1
    let r = core.exec_arm(&mut bus, insn(0xE1A0_F001, 0x0300_0000));
    assert_eq!(r, Ok(CpuPipelineAction::Flush));
    assert_eq!(core.pc, 0x0300_0200);
}

#[test]
fn undecoded_instruction_is_reported() {
    let mut bus = make_bus();
    let mut core = Core::new();
    // a coprocessor-range word the subset does not decode
    let i = insn(0xEE00_0000, 0);
    let r = core.exec_arm(&mut bus, i);
    assert_eq!(r, Err(CpuError::UnimplementedCpuInstruction(i)));
}

#[test]
fn load_word_from_work_ram() {
    let mut bus = make_bus();
    bus.write_32(0x0200_0040, 0x13579BDF);
    let mut core = Core::new();
    core.pc = 0x0300_0000;
    core.gpr[0] = 0x0200_0040;
    // LDR r1, [r0]
    let r = core.exec_arm(&mut bus, insn(0xE590_1000, 0x0300_0000));
    assert_eq!(r, Ok(CpuPipelineAction::IncPC));
    assert_eq!(core.gpr[1], 0x13579BDF);
    // 1N at the accessed EWRAM word (6) + 1S at the next opcode (1) + 1I
    assert_eq!(core.cycles, 8);
}

#[test]
fn load_byte_with_immediate_offset() {
    let mut bus = make_bus();
    bus.write_8(0x0200_0013, 0x9A);
    let mut core = Core::new();
    core.pc = 0x0300_0000;
    core.gpr[0] = 0x0200_0010;
    // LDRB r1, [r0, #3]
    let r = core.exec_arm(&mut bus, insn(0xE5D0_1003, 0x0300_0000));
    assert_eq!(r, Ok(CpuPipelineAction::IncPC));
    assert_eq!(core.gpr[1], 0x9A);
}

#[test]
fn store_writes_destination_register() {
    let mut bus = make_bus();
    let mut core = Core::new();
    core.pc = 0x0300_0000;
    core.gpr[0] = 0x0200_0080;
    core.gpr[1] = 0xCAFE_F00D;
    // STR r1, [r0]: memory at the effective address receives r1
    let r = core.exec_arm(&mut bus, insn(0xE580_1000, 0x0300_0000));
    assert_eq!(r, Ok(CpuPipelineAction::IncPC));
    assert_eq!(bus.read_32(0x0200_0080), 0xCAFE_F00D);
    // 2N, both charged at the accessed EWRAM address
    assert_eq!(core.cycles, 12);
}

#[test]
fn store_byte_writes_destination_low_byte() {
    let mut bus = make_bus();
    let mut core = Core::new();
    core.pc = 0x0300_0000;
    core.gpr[0] = 0x0200_0090;
    core.gpr[1] = 0x0000_12EF;
    // STRB r1, [r0]
    let r = core.exec_arm(&mut bus, insn(0xE5C0_1000, 0x0300_0000));
    assert_eq!(r, Ok(CpuPipelineAction::IncPC));
    assert_eq!(bus.read_8(0x0200_0090), 0xEF);
}

#[test]
fn write_back_to_destination_is_illegal() {
    let mut bus = make_bus();
    let mut core = Core::new();
    // LDR r1, [r1, #4]! with write-back over the destination
    let r = core.exec_arm(&mut bus, insn(0xE5B1_1004, 0));
    assert_eq!(r, Err(CpuError::IllegalInstruction));
}

#[test]
fn pre_indexed_write_back() {
    let mut bus = make_bus();
    bus.write_32(0x0200_0044, 0x11112222);
    let mut core = Core::new();
    core.pc = 0x0300_0000;
    core.gpr[0] = 0x0200_0040;
    // LDR r1, [r0, #4]!: pre-indexed, the base keeps the stepped address
    let r = core.exec_arm(&mut bus, insn(0xE5B0_1004, 0x0300_0000));
    assert_eq!(r, Ok(CpuPipelineAction::IncPC));
    assert_eq!(core.gpr[1], 0x11112222);
    assert_eq!(core.gpr[0], 0x0200_0044);
}

#[test]
fn barrel_shift_operations() {
    assert_eq!(Core::barrel_shift(0x1, 4, ArmShiftType::LSL), 0x10);
    assert_eq!(Core::barrel_shift(0x80, 4, ArmShiftType::LSR), 0x8);
    assert_eq!(Core::barrel_shift(0x8000_0000, 4, ArmShiftType::ASR), 0xF800_0000);
    assert_eq!(Core::barrel_shift(0x4000_0000, 4, ArmShiftType::ASR), 0x0400_0000);
    assert_eq!(Core::barrel_shift(0x0000_00F1, 4, ArmShiftType::ROR), 0x1000_000F);
    // shift amounts wrap at 32
    assert_eq!(Core::barrel_shift(0x2, 33, ArmShiftType::LSL), 0x4);
}

//! The CPU's bus-facing surface: the pipeline registers the bus consults
//! for open-bus reads and BIOS protection.

use vstd::prelude::*;

use crate::cycles::CycleLookupTables;
use crate::mem::MemoryAccessType;
use crate::mem::MemoryAccessWidth;

verus! {

/// The instruction set the CPU currently executes.
#[derive(Clone, Copy, Debug, PartialEq, Eq, Structural)]
pub enum CpuState {
    ARM,
    THUMB,
}

/// The pipeline registers the bus reads: the program counter, the current
/// instruction set, and the two most recently fetched opcodes. The driver
/// hands the bus a fresh copy whenever they change.
#[derive(Clone, Copy, Debug, PartialEq, Eq, Structural)]
pub struct CpuPipelineRegs {
    pub pc: u32,
    pub state: CpuState,
    /// The opcode two ahead of the executing instruction (`pc + 4` in
    /// THUMB state).
    pub prefetched_opcode: u32,
    /// The opcode one ahead of the executing instruction (`pc + 2` in
    /// THUMB state).
    pub decoded_opcode: u32,
}

impl CpuPipelineRegs {
    pub fn new() -> (r: CpuPipelineRegs)
        ensures
            r.pc == 0,
            r.state == CpuState::ARM,
            r.prefetched_opcode == 0,
            r.decoded_opcode == 0,
    {
        CpuPipelineRegs { pc: 0, state: CpuState::ARM, prefetched_opcode: 0, decoded_opcode: 0 }
    }
}

pub const REG_PC: usize = 15;

pub const REG_LR: usize = 14;

/// The condition field of an ARM instruction.
#[derive(Clone, Copy, Debug, PartialEq, Eq, Structural)]
pub enum ArmCond {
    Equal,
    NotEqual,
    CarrySet,
    CarryClear,
    Minus,
    Plus,
    OverflowSet,
    OverflowClear,
    Higher,
    LowerOrSame,
    GreaterOrEqual,
    LessThan,
    Greater,
    LessOrEqual,
    Always,
    Invalid,
}

/// The instruction classes the execution subset decodes.
#[derive(Clone, Copy, Debug, PartialEq, Eq, Structural)]
pub enum ArmFormat {
    BranchExchange,
    BranchLink,
    SoftwareInterrupt,
    DataProcessing,
    SingleDataTransfer,
    Undecoded,
}

/// The ALU operation of a data-processing instruction.
#[derive(Clone, Copy, Debug, PartialEq, Eq, Structural)]
pub enum ArmOpCode {
    AND,
    EOR,
    SUB,
    RSB,
    ADD,
    ADC,
    SBC,
    RSC,
    TST,
    TEQ,
    CMP,
    CMN,
    ORR,
    MOV,
    BIC,
    MVN,
}

/// The barrel shifter's operation.
#[derive(Clone, Copy, Debug, PartialEq, Eq, Structural)]
pub enum ArmShiftType {
    LSL,
    LSR,
    ASR,
    ROR,
}

/// How the barrel shifter's amount is given.
#[derive(Clone, Copy, Debug, PartialEq, Eq, Structural)]
pub enum ArmRegisterShift {
    ShiftAmount(u32, ArmShiftType),
    ShiftRegister(usize, ArmShiftType),
}

/// A decoded second operand or transfer offset.
#[derive(Clone, Copy, Debug, PartialEq, Eq, Structural)]
pub enum ArmShiftedValue {
    /// An 8-bit immediate and the even amount it is rotated right by.
    RotatedImmediate(u32, u32),
    /// A signed 12-bit transfer offset, as a two's-complement word.
    ImmediateValue(u32),
    /// A register run through the barrel shifter; `added` carries the
    /// transfer direction where one is encoded.
    ShiftedRegister { reg: usize, shift: ArmRegisterShift, added: Option<bool> },
}

/// One fetched ARM instruction word together with the address it was
/// fetched from.
#[derive(Clone, Copy, Debug, PartialEq, Eq, Structural)]
pub struct ArmInstruction {
    pub raw: u32,
    pub pc: u32,
}

impl ArmInstruction {
    pub open spec fn spec_cond(self) -> ArmCond {
        let c = self.raw >> 28;
        if c == 0 {
            ArmCond::Equal
        } else if c == 1 {
            ArmCond::NotEqual
        } else if c == 2 {
            ArmCond::CarrySet
        } else if c == 3 {
            ArmCond::CarryClear
        } else if c == 4 {
            ArmCond::Minus
        } else if c == 5 {
            ArmCond::Plus
        } else if c == 6 {
            ArmCond::OverflowSet
        } else if c == 7 {
            ArmCond::OverflowClear
        } else if c == 8 {
            ArmCond::Higher
        } else if c == 9 {
            ArmCond::LowerOrSame
        } else if c == 10 {
            ArmCond::GreaterOrEqual
        } else if c == 11 {
            ArmCond::LessThan
        } else if c == 12 {
            ArmCond::Greater
        } else if c == 13 {
            ArmCond::LessOrEqual
        } else if c == 14 {
            ArmCond::Always
        } else {
            ArmCond::Invalid
        }
    }

    pub fn cond(&self) -> (r: ArmCond)
        ensures
            r == self.spec_cond(),
    {
        let c: u32 = self.raw >> 28;
        if c == 0 {
            ArmCond::Equal
        } else if c == 1 {
            ArmCond::NotEqual
        } else if c == 2 {
            ArmCond::CarrySet
        } else if c == 3 {
            ArmCond::CarryClear
        } else if c == 4 {
            ArmCond::Minus
        } else if c == 5 {
            ArmCond::Plus
        } else if c == 6 {
            ArmCond::OverflowSet
        } else if c == 7 {
            ArmCond::OverflowClear
        } else if c == 8 {
            ArmCond::Higher
        } else if c == 9 {
            ArmCond::LowerOrSame
        } else if c == 10 {
            ArmCond::GreaterOrEqual
        } else if c == 11 {
            ArmCond::LessThan
        } else if c == 12 {
            ArmCond::Greater
        } else if c == 13 {
            ArmCond::LessOrEqual
        } else if c == 14 {
            ArmCond::Always
        } else {
            ArmCond::Invalid
        }
    }

    /// The instruction class the fixed bits of the word select.
    pub open spec fn spec_fmt(self) -> ArmFormat {
        if self.raw & 0x0FFFFFF0 == 0x012FFF10 {
            ArmFormat::BranchExchange
        } else if self.raw & 0x0E000000 == 0x0A000000 {
            ArmFormat::BranchLink
        } else if self.raw & 0x0F000000 == 0x0F000000 {
            ArmFormat::SoftwareInterrupt
        } else if self.raw & 0x0C000000 == 0x04000000 {
            ArmFormat::SingleDataTransfer
        } else if self.raw & 0x0C000000 == 0 {
            ArmFormat::DataProcessing
        } else {
            ArmFormat::Undecoded
        }
    }

    pub fn fmt(&self) -> (r: ArmFormat)
        ensures
            r == self.spec_fmt(),
    {
        if self.raw & 0x0FFFFFF0 == 0x012FFF10 {
            ArmFormat::BranchExchange
        } else if self.raw & 0x0E000000 == 0x0A000000 {
            ArmFormat::BranchLink
        } else if self.raw & 0x0F000000 == 0x0F000000 {
            ArmFormat::SoftwareInterrupt
        } else if self.raw & 0x0C000000 == 0x04000000 {
            ArmFormat::SingleDataTransfer
        } else if self.raw & 0x0C000000 == 0 {
            ArmFormat::DataProcessing
        } else {
            ArmFormat::Undecoded
        }
    }

    /// The base or first-operand register; a branch-exchange keeps its
    /// register in the low nibble instead.
    pub open spec fn spec_rn(self) -> usize {
        if self.spec_fmt() == ArmFormat::BranchExchange {
            (self.raw & 0xF) as usize
        } else {
            ((self.raw >> 16) & 0xF) as usize
        }
    }

    pub fn rn(&self) -> (r: usize)
        ensures
            r == self.spec_rn(),
            r < 16,
    {
        proof {
            let raw = self.raw;
            assert((raw >> 16) & 0xF < 16 && raw & 0xF < 16) by (bit_vector);
        }
        if self.fmt() == ArmFormat::BranchExchange {
            (self.raw & 0xF) as usize
        } else {
            ((self.raw >> 16) & 0xF) as usize
        }
    }

    pub open spec fn spec_rd(self) -> usize {
        ((self.raw >> 12) & 0xF) as usize
    }

    pub fn rd(&self) -> (r: usize)
        ensures
            r == self.spec_rd(),
            r < 16,
    {
        proof {
            let raw = self.raw;
            assert((raw >> 12) & 0xF < 16) by (bit_vector);
        }
        ((self.raw >> 12) & 0xF) as usize
    }

    pub open spec fn spec_link_flag(self) -> bool {
        self.raw & 0x01000000 != 0
    }

    pub fn link_flag(&self) -> (r: bool)
        ensures
            r == self.spec_link_flag(),
    {
        self.raw & 0x01000000 != 0
    }

    /// The branch displacement: the 24-bit field sign-extended and shifted
    /// left by two, as a two's-complement word.
    pub open spec fn spec_branch_offset(self) -> u32 {
        if self.raw & 0x00800000 != 0 {
            (((self.raw & 0x00FFFFFF) << 2) | 0xFC000000) as u32
        } else {
            ((self.raw & 0x00FFFFFF) << 2) as u32
        }
    }

    pub fn branch_offset(&self) -> (r: u32)
        ensures
            r == self.spec_branch_offset(),
    {
        if self.raw & 0x00800000 != 0 {
            ((self.raw & 0x00FFFFFF) << 2u32) | 0xFC000000
        } else {
            (self.raw & 0x00FFFFFF) << 2u32
        }
    }

    pub open spec fn spec_set_cond_flag(self) -> bool {
        self.raw & 0x00100000 != 0
    }

    pub fn set_cond_flag(&self) -> (r: bool)
        ensures
            r == self.spec_set_cond_flag(),
    {
        self.raw & 0x00100000 != 0
    }

    pub open spec fn spec_opcode(self) -> ArmOpCode {
        let c = (self.raw >> 21) & 0xF;
        if c == 0 {
            ArmOpCode::AND
        } else if c == 1 {
            ArmOpCode::EOR
        } else if c == 2 {
            ArmOpCode::SUB
        } else if c == 3 {
            ArmOpCode::RSB
        } else if c == 4 {
            ArmOpCode::ADD
        } else if c == 5 {
            ArmOpCode::ADC
        } else if c == 6 {
            ArmOpCode::SBC
        } else if c == 7 {
            ArmOpCode::RSC
        } else if c == 8 {
            ArmOpCode::TST
        } else if c == 9 {
            ArmOpCode::TEQ
        } else if c == 10 {
            ArmOpCode::CMP
        } else if c == 11 {
            ArmOpCode::CMN
        } else if c == 12 {
            ArmOpCode::ORR
        } else if c == 13 {
            ArmOpCode::MOV
        } else if c == 14 {
            ArmOpCode::BIC
        } else {
            ArmOpCode::MVN
        }
    }

    pub fn opcode(&self) -> (r: ArmOpCode)
        ensures
            r == self.spec_opcode(),
    {
        let c: u32 = (self.raw >> 21) & 0xF;
        if c == 0 {
            ArmOpCode::AND
        } else if c == 1 {
            ArmOpCode::EOR
        } else if c == 2 {
            ArmOpCode::SUB
        } else if c == 3 {
            ArmOpCode::RSB
        } else if c == 4 {
            ArmOpCode::ADD
        } else if c == 5 {
            ArmOpCode::ADC
        } else if c == 6 {
            ArmOpCode::SBC
        } else if c == 7 {
            ArmOpCode::RSC
        } else if c == 8 {
            ArmOpCode::TST
        } else if c == 9 {
            ArmOpCode::TEQ
        } else if c == 10 {
            ArmOpCode::CMP
        } else if c == 11 {
            ArmOpCode::CMN
        } else if c == 12 {
            ArmOpCode::ORR
        } else if c == 13 {
            ArmOpCode::MOV
        } else if c == 14 {
            ArmOpCode::BIC
        } else {
            ArmOpCode::MVN
        }
    }

    /// The barrel-shift specification held in the low bits of a register
    /// operand.
    pub open spec fn spec_register_shift_of(self) -> ArmRegisterShift {
        let ty = self.spec_shift_type();
        if self.raw & 0x10 == 0 {
            ArmRegisterShift::ShiftAmount((self.raw >> 7) & 0x1F, ty)
        } else {
            ArmRegisterShift::ShiftRegister((((self.raw >> 8) & 0xF) as usize), ty)
        }
    }

    pub open spec fn spec_shift_type(self) -> ArmShiftType {
        let t = (self.raw >> 5) & 0x3;
        if t == 0 {
            ArmShiftType::LSL
        } else if t == 1 {
            ArmShiftType::LSR
        } else if t == 2 {
            ArmShiftType::ASR
        } else {
            ArmShiftType::ROR
        }
    }

    fn shift_type(&self) -> (r: ArmShiftType)
        ensures
            r == self.spec_shift_type(),
    {
        let t: u32 = (self.raw >> 5) & 0x3;
        if t == 0 {
            ArmShiftType::LSL
        } else if t == 1 {
            ArmShiftType::LSR
        } else if t == 2 {
            ArmShiftType::ASR
        } else {
            ArmShiftType::ROR
        }
    }

    fn register_shift_of(&self) -> (r: ArmRegisterShift)
        ensures
            r == self.spec_register_shift_of(),
    {
        let ty = self.shift_type();
        if self.raw & 0x10 == 0 {
            ArmRegisterShift::ShiftAmount((self.raw >> 7) & 0x1F, ty)
        } else {
            proof {
                let raw = self.raw;
                assert((raw >> 8) & 0xF < 16) by (bit_vector);
            }
            ArmRegisterShift::ShiftRegister(((self.raw >> 8) & 0xF) as usize, ty)
        }
    }

    /// The second operand of a data-processing instruction.
    pub open spec fn spec_operand2(self) -> ArmShiftedValue {
        if self.raw & 0x02000000 != 0 {
            ArmShiftedValue::RotatedImmediate(
                self.raw & 0xFF,
                (2 * ((self.raw >> 8) & 0xF)) as u32,
            )
        } else {
            ArmShiftedValue::ShiftedRegister {
                reg: (self.raw & 0xF) as usize,
                shift: self.spec_register_shift_of(),
                added: None,
            }
        }
    }

    pub fn operand2(&self) -> (r: ArmShiftedValue)
        ensures
            r == self.spec_operand2(),
    {
        if self.raw & 0x02000000 != 0 {
            proof {
                let raw = self.raw;
                assert((raw >> 8) & 0xF < 16) by (bit_vector);
            }
            ArmShiftedValue::RotatedImmediate(self.raw & 0xFF, 2 * ((self.raw >> 8) & 0xF))
        } else {
            proof {
                let raw = self.raw;
                assert(raw & 0xF < 16) by (bit_vector);
            }
            ArmShiftedValue::ShiftedRegister {
                reg: (self.raw & 0xF) as usize,
                shift: self.register_shift_of(),
                added: None,
            }
        }
    }

    pub open spec fn spec_load_flag(self) -> bool {
        self.raw & 0x00100000 != 0
    }

    pub fn load_flag(&self) -> (r: bool)
        ensures
            r == self.spec_load_flag(),
    {
        self.raw & 0x00100000 != 0
    }

    pub open spec fn spec_write_back_flag(self) -> bool {
        self.raw & 0x00200000 != 0
    }

    pub fn write_back_flag(&self) -> (r: bool)
        ensures
            r == self.spec_write_back_flag(),
    {
        self.raw & 0x00200000 != 0
    }

    pub open spec fn spec_pre_index_flag(self) -> bool {
        self.raw & 0x01000000 != 0
    }

    pub fn pre_index_flag(&self) -> (r: bool)
        ensures
            r == self.spec_pre_index_flag(),
    {
        self.raw & 0x01000000 != 0
    }

    pub open spec fn spec_add_offset_flag(self) -> bool {
        self.raw & 0x00800000 != 0
    }

    /// Bytes moved by a single data transfer: 1 with the byte bit set,
    /// else 4.
    pub open spec fn spec_transfer_size(self) -> usize {
        if self.raw & 0x00400000 != 0 {
            1
        } else {
            4
        }
    }

    pub fn transfer_size(&self) -> (r: usize)
        ensures
            r == self.spec_transfer_size(),
    {
        if self.raw & 0x00400000 != 0 {
            1
        } else {
            4
        }
    }

    /// The transfer offset of a load or store: an immediate already
    /// carrying its direction, or a shifted register and the direction
    /// bit.
    pub open spec fn spec_ldr_str_offset(self) -> ArmShiftedValue {
        if self.raw & 0x02000000 == 0 {
            if self.spec_add_offset_flag() {
                ArmShiftedValue::ImmediateValue(self.raw & 0xFFF)
            } else {
                ArmShiftedValue::ImmediateValue(0u32.wrapping_sub(self.raw & 0xFFF))
            }
        } else {
            ArmShiftedValue::ShiftedRegister {
                reg: (self.raw & 0xF) as usize,
                shift: self.spec_register_shift_of(),
                added: Some(self.spec_add_offset_flag()),
            }
        }
    }

    pub fn ldr_str_offset(&self) -> (r: ArmShiftedValue)
        ensures
            r == self.spec_ldr_str_offset(),
    {
        if self.raw & 0x02000000 == 0 {
            let off: u32 = self.raw & 0xFFF;
            if self.raw & 0x00800000 != 0 {
                ArmShiftedValue::ImmediateValue(off)
            } else {
                ArmShiftedValue::ImmediateValue(0u32.wrapping_sub(off))
            }
        } else {
            proof {
                let raw = self.raw;
                assert(raw & 0xF < 16) by (bit_vector);
            }
            ArmShiftedValue::ShiftedRegister {
                reg: (self.raw & 0xF) as usize,
                shift: self.register_shift_of(),
                added: Some(self.raw & 0x00800000 != 0),
            }
        }
    }
}

/// What the pipeline does after one instruction: step to the next word,
/// or flush and refill from a new program counter.
#[derive(Clone, Copy, Debug, PartialEq, Eq, Structural)]
pub enum CpuPipelineAction {
    IncPC,
    Flush,
}

/// Why execution could not proceed.
#[derive(Clone, Copy, Debug, PartialEq, Eq, Structural)]
pub enum CpuError {
    IllegalInstruction,
    UnimplementedCpuInstruction(ArmInstruction),
}

pub type CpuResult<T> = Result<T, CpuError>;

pub type CpuExecResult = CpuResult<CpuPipelineAction>;

/// The program-status flags and instruction set.
#[derive(Clone, Copy, Debug, PartialEq, Eq, Structural)]
pub struct StatusRegister {
    pub n: bool,
    pub z: bool,
    pub c: bool,
    pub v: bool,
    pub state: CpuState,
}

/// Mathematical model of the execution core.
#[verifier::ext_equal]
pub ghost struct CoreView {
    pub gpr: Seq<u32>,
    pub pc: u32,
    pub cpsr: StatusRegister,
    pub cycles: u64,
}

impl CoreView {
    pub open spec fn wf(self) -> bool {
        self.gpr.len() == 15
    }

    /// The value a register number names; 15 is the program counter.
    pub open spec fn reg(self, r: int) -> u32 {
        if r == 15 {
            self.pc
        } else {
            self.gpr[r]
        }
    }

    /// The barrel shifter's output for a register operand, or the illegal
    /// case of a shift amount taken from the program counter.
    pub open spec fn register_shift_of(self, reg: int, shift: ArmRegisterShift) -> CpuResult<
        u32,
    > {
        match shift {
            ArmRegisterShift::ShiftAmount(amount, ty) => Ok(
                spec_barrel_shift(self.reg(reg), amount, ty),
            ),
            ArmRegisterShift::ShiftRegister(rs, ty) => {
                if rs != REG_PC {
                    Ok(spec_barrel_shift(self.reg(reg), self.reg(rs as int) & 0xFF, ty))
                } else {
                    Err(CpuError::IllegalInstruction)
                }
            },
        }
    }
}

/// The execution core: the general registers, program counter, status
/// flags and the cycle counter the bus timings feed.
#[derive(Clone, Debug)]
pub struct Core {
    pub gpr: [u32; 15],
    pub pc: u32,
    pub cpsr: StatusRegister,
    pub cycles: u64,
}

impl View for Core {
    type V = CoreView;

    open spec fn view(&self) -> CoreView {
        CoreView { gpr: self.gpr@, pc: self.pc, cpsr: self.cpsr, cycles: self.cycles }
    }
}

/// Saturating cycle addition: the counter sticks at its maximum rather
/// than wrap.
pub open spec fn spec_cycles_add(a: u64, b: int) -> u64 {
    if a + b > u64::MAX {
        u64::MAX
    } else {
        (a + b) as u64
    }
}

/// Whether a condition field passes against the given flags.
pub open spec fn spec_cond_passed(cond: ArmCond, f: StatusRegister) -> bool {
    match cond {
        ArmCond::Equal => f.z,
        ArmCond::NotEqual => !f.z,
        ArmCond::CarrySet => f.c,
        ArmCond::CarryClear => !f.c,
        ArmCond::Minus => f.n,
        ArmCond::Plus => !f.n,
        ArmCond::OverflowSet => f.v,
        ArmCond::OverflowClear => !f.v,
        ArmCond::Higher => f.c && !f.z,
        ArmCond::LowerOrSame => !f.c || f.z,
        ArmCond::GreaterOrEqual => f.n == f.v,
        ArmCond::LessThan => f.n != f.v,
        ArmCond::Greater => !f.z && f.n == f.v,
        ArmCond::LessOrEqual => f.z || f.n != f.v,
        ArmCond::Always => true,
        ArmCond::Invalid => false,
    }
}

/// Logical shift left by the amount's low five bits.
pub open spec fn spec_lsl(val: u32, amount: u32) -> u32 {
    (val << ((amount & 31) as u32)) as u32
}

/// Logical shift right by the amount's low five bits.
pub open spec fn spec_lsr(val: u32, amount: u32) -> u32 {
    (val >> ((amount & 31) as u32)) as u32
}

/// Arithmetic shift right by the amount's low five bits: the sign bit
/// fills the vacated positions.
pub open spec fn spec_asr(val: u32, amount: u32) -> u32 {
    if val & 0x80000000 != 0 {
        ((val >> ((amount & 31) as u32)) | (!(0xFFFFFFFFu32 >> ((amount & 31) as u32)))) as u32
    } else {
        (val >> ((amount & 31) as u32)) as u32
    }
}

/// Rotate right by the amount's low five bits.
pub open spec fn spec_ror(val: u32, amount: u32) -> u32 {
    ((val >> ((amount & 31) as u32)) | (val << ((((32 - ((amount & 31) as int)) as u32)
        & 31) as u32))) as u32
}

/// The barrel shifter's result.
pub open spec fn spec_barrel_shift(val: u32, amount: u32, shift: ArmShiftType) -> u32 {
    match shift {
        ArmShiftType::LSL => spec_lsl(val, amount),
        ArmShiftType::LSR => spec_lsr(val, amount),
        ArmShiftType::ASR => spec_asr(val, amount),
        ArmShiftType::ROR => spec_ror(val, amount),
    }
}

/// A wrapped difference, and whether it reads greater than its first
/// operand as a signed word: how the subtraction path reports carry.
pub open spec fn spec_sub_result(a: u32, b: u32) -> u32 {
    a.wrapping_sub(b)
}

pub open spec fn spec_sub_carry(a: u32, b: u32) -> bool {
    (spec_sub_result(a, b) as i32) > (a as i32)
}

/// A wrapped sum, and whether it reads less than its first operand as a
/// signed word: how the addition path reports carry.
pub open spec fn spec_add_result(a: u32, b: u32) -> u32 {
    a.wrapping_add(b)
}

pub open spec fn spec_add_carry(a: u32, b: u32) -> bool {
    (spec_add_result(a, b) as i32) < (a as i32)
}

/// The word the ALU computes for an operation, given the carry flag in.
pub open spec fn spec_alu_result(opcode: ArmOpCode, op1: u32, op2: u32, c_in: bool) -> u32 {
    let c: u32 = if c_in {
        1
    } else {
        0
    };
    match opcode {
        ArmOpCode::AND | ArmOpCode::TST => op1 & op2,
        ArmOpCode::EOR | ArmOpCode::TEQ => op1 ^ op2,
        ArmOpCode::SUB | ArmOpCode::CMP => spec_sub_result(op1, op2),
        ArmOpCode::RSB => spec_sub_result(op2, op1),
        ArmOpCode::ADD | ArmOpCode::CMN => spec_add_result(op1, op2),
        ArmOpCode::ADC => spec_add_result(op1, op2.wrapping_add(c)),
        ArmOpCode::SBC => spec_add_result(op1, op2.wrapping_sub((1 - c) as u32)),
        ArmOpCode::RSC => spec_add_result(op2, op1.wrapping_sub((1 - c) as u32)),
        ArmOpCode::ORR => op1 | op2,
        ArmOpCode::MOV => op2,
        ArmOpCode::BIC => op1 & (!op2),
        ArmOpCode::MVN => !op2,
    }
}

/// The carry flag the ALU leaves for an operation: the arithmetic paths
/// report their signed comparison, the logical ones keep the flag.
pub open spec fn spec_alu_carry(opcode: ArmOpCode, op1: u32, op2: u32, c_in: bool) -> bool {
    let c: u32 = if c_in {
        1
    } else {
        0
    };
    match opcode {
        ArmOpCode::SUB | ArmOpCode::CMP => spec_sub_carry(op1, op2),
        ArmOpCode::RSB => spec_sub_carry(op2, op1),
        ArmOpCode::ADD | ArmOpCode::CMN => spec_add_carry(op1, op2),
        ArmOpCode::ADC => spec_add_carry(op1, op2.wrapping_add(c)),
        ArmOpCode::SBC => spec_add_carry(op1, op2.wrapping_sub((1 - c) as u32)),
        ArmOpCode::RSC => spec_add_carry(op2, op1.wrapping_sub((1 - c) as u32)),
        _ => c_in,
    }
}

/// Whether an operation only tests and never writes its result back.
pub open spec fn spec_is_test_opcode(opcode: ArmOpCode) -> bool {
    opcode == ArmOpCode::TST || opcode == ArmOpCode::TEQ || opcode == ArmOpCode::CMP || opcode
        == ArmOpCode::CMN
}

impl Core {
    pub fn new() -> (r: Core)
        ensures
            r@.wf(),
            r@.pc == 0,
            r@.cycles == 0,
            forall|i: int| 0 <= i < 15 ==> r@.gpr[i] == 0,
            r@.cpsr == (StatusRegister {
                n: false,
                z: false,
                c: false,
                v: false,
                state: CpuState::ARM,
            }),
    {
        Core {
            gpr: [0; 15],
            pc: 0,
            cpsr: StatusRegister { n: false, z: false, c: false, v: false, state: CpuState::ARM },
            cycles: 0,
        }
    }

    pub fn get_reg(&self, r: usize) -> (v: u32)
        requires
            self@.wf(),
            r < 16,
        ensures
            v == self@.reg(r as int),
    {
        if r == REG_PC {
            self.pc
        } else {
            self.gpr[r]
        }
    }

    pub fn set_reg(&mut self, r: usize, v: u32)
        requires
            old(self)@.wf(),
            r < 16,
        ensures
            final(self)@.wf(),
            r == REG_PC ==> final(self)@ =~~= (CoreView { pc: v, ..old(self)@ }),
            r != REG_PC ==> final(self)@ =~~= (CoreView {
                gpr: old(self)@.gpr.update(r as int, v),
                ..old(self)@
            }),
    {
        if r == REG_PC {
            self.pc = v;
        } else {
            self.gpr[r] = v;
        }
    }

    /// Bytes an instruction occupies in the current state.
    pub fn word_size(&self) -> (r: u32)
        ensures
            self.cpsr.state == CpuState::ARM ==> r == 4,
            self.cpsr.state == CpuState::THUMB ==> r == 2,
    {
        match self.cpsr.state {
            CpuState::ARM => 4,
            CpuState::THUMB => 2,
        }
    }

    pub fn check_arm_cond(&self, cond: ArmCond) -> (r: bool)
        ensures
            r == spec_cond_passed(cond, self.cpsr),
    {
        match cond {
            ArmCond::Equal => self.cpsr.z,
            ArmCond::NotEqual => !self.cpsr.z,
            ArmCond::CarrySet => self.cpsr.c,
            ArmCond::CarryClear => !self.cpsr.c,
            ArmCond::Minus => self.cpsr.n,
            ArmCond::Plus => !self.cpsr.n,
            ArmCond::OverflowSet => self.cpsr.v,
            ArmCond::OverflowClear => !self.cpsr.v,
            ArmCond::Higher => self.cpsr.c && !self.cpsr.z,
            ArmCond::LowerOrSame => !self.cpsr.c || self.cpsr.z,
            ArmCond::GreaterOrEqual => self.cpsr.n == self.cpsr.v,
            ArmCond::LessThan => self.cpsr.n != self.cpsr.v,
            ArmCond::Greater => !self.cpsr.z && self.cpsr.n == self.cpsr.v,
            ArmCond::LessOrEqual => self.cpsr.z || self.cpsr.n != self.cpsr.v,
            ArmCond::Always => true,
            ArmCond::Invalid => false,
        }
    }

    /// Charges one internal cycle.
    pub fn add_cycle(&mut self)
        ensures
            final(self)@ =~~= (CoreView {
                cycles: spec_cycles_add(old(self)@.cycles, 1),
                ..old(self)@
            }),
    {
        if self.cycles <= u64::MAX - 1 {
            self.cycles = self.cycles + 1;
        }
    }

    /// Charges the bus cost of one access of the given class and width.
    pub fn add_cycles(
        &mut self,
        addr: crate::mem::Addr,
        sysbus: &crate::bus::SysBus,
        access: crate::mem::MemoryAccessType,
        width: crate::mem::MemoryAccessWidth,
    )
        ensures
            final(self)@ =~~= (CoreView {
                cycles: spec_cycles_add(
                    old(self)@.cycles,
                    crate::bus::spec_get_cycles(sysbus.cycle_luts, addr, access, width) as int,
                ),
                ..old(self)@
            }),
    {
        let c: usize = sysbus.get_cycles(addr, access, width);
        if self.cycles <= u64::MAX - (c as u64) {
            self.cycles = self.cycles + (c as u64);
        } else {
            self.cycles = u64::MAX;
        }
    }

    pub fn barrel_shift(val: u32, amount: u32, shift: ArmShiftType) -> (r: u32)
        ensures
            r == spec_barrel_shift(val, amount, shift),
    {
        let s: u32 = amount & 31;
        proof {
            assert(amount & 31 < 32 && (32 - ((amount & 31) as int)) as u32 & 31 < 32) by (
            bit_vector);
        }
        match shift {
            ArmShiftType::LSL => val << s,
            ArmShiftType::LSR => val >> s,
            ArmShiftType::ASR => {
                if val & 0x80000000 != 0 {
                    (val >> s) | (!(0xFFFFFFFFu32 >> s))
                } else {
                    val >> s
                }
            },
            ArmShiftType::ROR => (val >> s) | (val << ((32 - s) & 31)),
        }
    }

    pub fn register_shift(&self, reg: usize, shift: ArmRegisterShift) -> (r: CpuResult<u32>)
        requires
            self@.wf(),
            reg < 16,
            shift matches ArmRegisterShift::ShiftRegister(rs, _) ==> rs < 16,
        ensures
            r == self@.register_shift_of(reg as int, shift),
    {
        let val: u32 = self.get_reg(reg);
        match shift {
            ArmRegisterShift::ShiftAmount(amount, ty) => Ok(Core::barrel_shift(val, amount, ty)),
            ArmRegisterShift::ShiftRegister(rs, ty) => {
                if rs != REG_PC {
                    Ok(Core::barrel_shift(val, self.get_reg(rs) & 0xFF, ty))
                } else {
                    Err(CpuError::IllegalInstruction)
                }
            },
        }
    }

    fn alu_sub_update_carry(a: u32, b: u32, carry: &mut bool) -> (res: u32)
        ensures
            res == spec_sub_result(a, b),
            *final(carry) == spec_sub_carry(a, b),
    {
        let res: u32 = a.wrapping_sub(b);
        *carry = (res as i32) > (a as i32);
        res
    }

    fn alu_add_update_carry(a: u32, b: u32, carry: &mut bool) -> (res: u32)
        ensures
            res == spec_add_result(a, b),
            *final(carry) == spec_add_carry(a, b),
    {
        let res: u32 = a.wrapping_add(b);
        *carry = (res as i32) < (a as i32);
        res
    }

    /// Runs one ALU operation: the result is returned except for the test
    /// operations, and the flags are updated when asked for.
    pub fn alu(&mut self, opcode: ArmOpCode, op1: u32, op2: u32, set_cond_flags: bool) -> (r:
        Option<u32>)
        requires
            old(self)@.wf(),
        ensures
            final(self)@.wf(),
            r == if spec_is_test_opcode(opcode) {
                Option::<u32>::None
            } else {
                Some(spec_alu_result(opcode, op1, op2, old(self).cpsr.c))
            },
            set_cond_flags ==> final(self)@ =~~= (CoreView {
                cpsr: StatusRegister {
                    n: spec_alu_result(opcode, op1, op2, old(self).cpsr.c) & 0x80000000 != 0,
                    z: spec_alu_result(opcode, op1, op2, old(self).cpsr.c) == 0,
                    c: spec_alu_carry(opcode, op1, op2, old(self).cpsr.c),
                    ..old(self).cpsr
                },
                ..old(self)@
            }),
            !set_cond_flags ==> final(self)@ =~~= old(self)@,
    {
        let c: u32 = if self.cpsr.c {
            1
        } else {
            0
        };
        let mut carry: bool = self.cpsr.c;

        let result: u32 = match opcode {
            ArmOpCode::AND | ArmOpCode::TST => op1 & op2,
            ArmOpCode::EOR | ArmOpCode::TEQ => op1 ^ op2,
            ArmOpCode::SUB | ArmOpCode::CMP => Self::alu_sub_update_carry(op1, op2, &mut carry),
            ArmOpCode::RSB => Self::alu_sub_update_carry(op2, op1, &mut carry),
            ArmOpCode::ADD | ArmOpCode::CMN => Self::alu_add_update_carry(op1, op2, &mut carry),
            ArmOpCode::ADC => Self::alu_add_update_carry(op1, op2.wrapping_add(c), &mut carry),
            ArmOpCode::SBC => Self::alu_add_update_carry(
                op1,
                op2.wrapping_sub(1 - c),
                &mut carry,
            ),
            ArmOpCode::RSC => Self::alu_add_update_carry(
                op2,
                op1.wrapping_sub(1 - c),
                &mut carry,
            ),
            ArmOpCode::ORR => op1 | op2,
            ArmOpCode::MOV => op2,
            ArmOpCode::BIC => op1 & (!op2),
            ArmOpCode::MVN => !op2,
        };

        if set_cond_flags {
            self.cpsr.n = result & 0x80000000 != 0;
            self.cpsr.z = result == 0;
            self.cpsr.c = carry;
        }

        match opcode {
            ArmOpCode::TST | ArmOpCode::TEQ | ArmOpCode::CMP | ArmOpCode::CMN => None,
            _ => Some(result),
        }
    }
}

/// One table lookup's cost, as a mathematical integer.
pub open spec fn spec_gc(
    luts: CycleLookupTables,
    addr: u32,
    access: MemoryAccessType,
    width: MemoryAccessWidth,
) -> int {
    crate::bus::spec_get_cycles(luts, addr, access, width) as int
}

/// The core after charging one bus access.
pub open spec fn spec_charge(
    core: CoreView,
    luts: CycleLookupTables,
    addr: u32,
    access: MemoryAccessType,
    width: MemoryAccessWidth,
) -> CoreView {
    CoreView { cycles: spec_cycles_add(core.cycles, spec_gc(luts, addr, access, width)), ..core }
}

/// The core after charging one internal cycle.
pub open spec fn spec_tick(core: CoreView) -> CoreView {
    CoreView { cycles: spec_cycles_add(core.cycles, 1), ..core }
}

/// Bytes an instruction occupies in the core's current state.
pub open spec fn spec_word_size(core: CoreView) -> u32 {
    if core.cpsr.state == CpuState::ARM {
        4u32
    } else {
        2u32
    }
}

/// The core after a condition that fails: one sequential fetch of the
/// following word and one internal cycle.
pub open spec fn spec_cond_fail_step(
    core: CoreView,
    luts: CycleLookupTables,
    insn: ArmInstruction,
) -> CoreView {
    spec_tick(
        spec_charge(
            core,
            luts,
            insn.pc.wrapping_add(spec_word_size(core)),
            MemoryAccessType::Sequential,
            MemoryAccessWidth::MemoryAccess32,
        ),
    )
}

/// The core after a branch: the link register is set when asked for, one
/// non-sequential access is charged at the old program counter, and two
/// sequential ones refill the pipeline at the target.
pub open spec fn spec_b_bl_step(
    core: CoreView,
    luts: CycleLookupTables,
    insn: ArmInstruction,
) -> CoreView {
    let ws = spec_word_size(core);
    let linked = if insn.spec_link_flag() {
        CoreView { gpr: core.gpr.update(REG_LR as int, core.pc & 0xFFFFFFFEu32), ..core }
    } else {
        core
    };
    let charged = spec_charge(
        linked,
        luts,
        linked.pc,
        MemoryAccessType::NonSequential,
        MemoryAccessWidth::MemoryAccess32,
    );
    let new_pc = core.pc.wrapping_add(insn.spec_branch_offset());
    let jumped = CoreView { pc: new_pc, ..charged };
    spec_charge(
        spec_charge(
            jumped,
            luts,
            new_pc,
            MemoryAccessType::Sequential,
            MemoryAccessWidth::MemoryAccess32,
        ),
        luts,
        new_pc.wrapping_add(ws),
        MemoryAccessType::Sequential,
        MemoryAccessWidth::MemoryAccess32,
    )
}

/// The core after a branch-exchange: the instruction set follows the
/// target's low bit, and the pipeline refill is charged at the target in
/// the new state's word size.
pub open spec fn spec_bx_step(
    core: CoreView,
    luts: CycleLookupTables,
    insn: ArmInstruction,
) -> CoreView {
    let rn = core.reg(insn.spec_rn() as int);
    let new_state = if rn & 1 == 1 {
        CpuState::THUMB
    } else {
        CpuState::ARM
    };
    let switched = CoreView {
        cpsr: StatusRegister { state: new_state, ..core.cpsr },
        ..core
    };
    let charged = spec_charge(
        switched,
        luts,
        switched.pc,
        MemoryAccessType::NonSequential,
        MemoryAccessWidth::MemoryAccess32,
    );
    let new_pc = (rn & 0xFFFFFFFEu32) as u32;
    let jumped = CoreView { pc: new_pc, ..charged };
    let ws = spec_word_size(jumped);
    spec_charge(
        spec_charge(
            jumped,
            luts,
            new_pc,
            MemoryAccessType::Sequential,
            MemoryAccessWidth::MemoryAccess32,
        ),
        luts,
        new_pc.wrapping_add(ws),
        MemoryAccessType::Sequential,
        MemoryAccessWidth::MemoryAccess32,
    )
}

/// The core after a software interrupt: the return address is kept in the
/// link register and execution restarts at the interrupt vector in ARM
/// state.
pub open spec fn spec_swi_step(core: CoreView) -> CoreView {
    CoreView {
        gpr: core.gpr.update(REG_LR as int, core.pc),
        pc: 0x08,
        cpsr: StatusRegister { state: CpuState::ARM, ..core.cpsr },
        ..core
    }
}

/// The resolved second operand of a data-processing instruction.
pub open spec fn spec_dp_op2(core: CoreView, insn: ArmInstruction) -> CpuResult<u32> {
    match insn.spec_operand2() {
        ArmShiftedValue::RotatedImmediate(v, rot) => Ok(spec_ror(v, rot)),
        ArmShiftedValue::ShiftedRegister { reg, shift, added } => core.register_shift_of(
            reg as int,
            shift,
        ),
        ArmShiftedValue::ImmediateValue(v) => Ok(v),
    }
}

/// What a data-processing instruction returns: an error for a shift
/// amount taken from the program counter, a flush when it writes the
/// program counter, else a plain step.
pub open spec fn spec_dp_result(core: CoreView, insn: ArmInstruction) -> CpuExecResult {
    match spec_dp_op2(core, insn) {
        Err(e) => Err(e),
        Ok(op2) => {
            if !spec_is_test_opcode(insn.spec_opcode()) && insn.spec_rd() == REG_PC {
                Ok(CpuPipelineAction::Flush)
            } else {
                Ok(CpuPipelineAction::IncPC)
            }
        },
    }
}

/// The core after a data-processing instruction: operand resolution,
/// the ALU, the destination write, and the cycle charges in program
/// order.
pub open spec fn spec_dp_step(
    core: CoreView,
    luts: CycleLookupTables,
    insn: ArmInstruction,
) -> CoreView {
    let rd = insn.spec_rd();
    let ws = spec_word_size(core);
    let charged_pc = if rd == REG_PC {
        spec_charge(
            core,
            luts,
            core.pc,
            MemoryAccessType::NonSequential,
            MemoryAccessWidth::MemoryAccess32,
        )
    } else {
        core
    };
    let charged_shift = if insn.spec_operand2() is ShiftedRegister {
        spec_tick(charged_pc)
    } else {
        charged_pc
    };
    match spec_dp_op2(core, insn) {
        Err(e) => charged_shift,
        Ok(op2) => {
            let op1 = core.reg(insn.spec_rn() as int);
            let opcode = insn.spec_opcode();
            let set_flags = spec_is_test_opcode(opcode) || insn.spec_set_cond_flag();
            let result = spec_alu_result(opcode, op1, op2, core.cpsr.c);
            let flagged = if set_flags {
                CoreView {
                    cpsr: StatusRegister {
                        n: result & 0x80000000 != 0,
                        z: result == 0,
                        c: spec_alu_carry(opcode, op1, op2, core.cpsr.c),
                        ..charged_shift.cpsr
                    },
                    ..charged_shift
                }
            } else {
                charged_shift
            };
            if !spec_is_test_opcode(opcode) {
                let written = if rd == REG_PC {
                    CoreView { pc: result, ..flagged }
                } else {
                    CoreView { gpr: flagged.gpr.update(rd as int, result), ..flagged }
                };
                let refilled = if rd == REG_PC {
                    spec_charge(
                        written,
                        luts,
                        result,
                        MemoryAccessType::Sequential,
                        MemoryAccessWidth::MemoryAccess32,
                    )
                } else {
                    written
                };
                spec_charge(
                    refilled,
                    luts,
                    refilled.pc.wrapping_add(ws),
                    MemoryAccessType::Sequential,
                    MemoryAccessWidth::MemoryAccess32,
                )
            } else {
                spec_charge(
                    flagged,
                    luts,
                    flagged.pc.wrapping_add(ws),
                    MemoryAccessType::Sequential,
                    MemoryAccessWidth::MemoryAccess32,
                )
            }
        },
    }
}

/// The signed transfer offset of a load or store, as a two's-complement
/// word.
pub open spec fn spec_ldr_offset_val(core: CoreView, insn: ArmInstruction) -> CpuResult<u32> {
    match insn.spec_ldr_str_offset() {
        ArmShiftedValue::ImmediateValue(off) => Ok(off),
        ArmShiftedValue::ShiftedRegister { reg, shift, added } => {
            match core.register_shift_of(reg as int, shift) {
                Err(e) => Err(e),
                Ok(abs) => {
                    if added == Some(true) {
                        Ok(abs)
                    } else {
                        Ok(0u32.wrapping_sub(abs))
                    }
                },
            }
        },
        ArmShiftedValue::RotatedImmediate(v, rot) => Err(CpuError::IllegalInstruction),
    }
}

/// The address a load or store accesses: the base (prefetched past the
/// program counter when it is the base), with the offset applied up front
/// for a pre-indexed transfer.
pub open spec fn spec_ldr_str_addr(core: CoreView, insn: ArmInstruction, off: u32) -> u32 {
    let base = if insn.spec_rn() == REG_PC {
        core.reg(REG_PC as int).wrapping_add(8)
    } else {
        core.reg(insn.spec_rn() as int)
    };
    if insn.spec_pre_index_flag() {
        base.wrapping_add(off)
    } else {
        base
    }
}

/// What a load or store returns: writing back over the destination and an
/// illegal offset are errors; loading the program counter flushes.
pub open spec fn spec_ldr_str_result(core: CoreView, insn: ArmInstruction) -> CpuExecResult {
    if insn.spec_write_back_flag() && insn.spec_rd() == insn.spec_rn() {
        Err(CpuError::IllegalInstruction)
    } else {
        match spec_ldr_offset_val(core, insn) {
            Err(e) => Err(e),
            Ok(off) => {
                if insn.spec_load_flag() && insn.spec_rd() == REG_PC {
                    Ok(CpuPipelineAction::Flush)
                } else {
                    Ok(CpuPipelineAction::IncPC)
                }
            },
        }
    }
}

/// The core after a load or store: the transfer's cycle charges, the
/// loaded destination, and the written-back base, in program order.
pub open spec fn spec_ldr_str_core_step(
    core: CoreView,
    bus: crate::bus::SysBusView,
    luts: CycleLookupTables,
    insn: ArmInstruction,
) -> CoreView {
    if insn.spec_write_back_flag() && insn.spec_rd() == insn.spec_rn() {
        core
    } else {
        match spec_ldr_offset_val(core, insn) {
            Err(e) => core,
            Ok(off) => {
                let rn = insn.spec_rn();
                let rd = insn.spec_rd();
                let ws = spec_word_size(core);
                let base = if rn == REG_PC {
                    core.reg(REG_PC as int).wrapping_add(8)
                } else {
                    core.reg(rn as int)
                };
                let eff = base.wrapping_add(off);
                let addr = if insn.spec_pre_index_flag() {
                    eff
                } else {
                    base
                };
                let done = if insn.spec_load_flag() {
                    let width = if insn.spec_transfer_size() == 1 {
                        MemoryAccessWidth::MemoryAccess8
                    } else {
                        MemoryAccessWidth::MemoryAccess32
                    };
                    let data = if insn.spec_transfer_size() == 1 {
                        bus.read_8_of(addr) as u32
                    } else {
                        bus.read_32_of(addr)
                    };
                    let charged = spec_charge(
                        spec_charge(core, luts, addr, MemoryAccessType::NonSequential, width),
                        luts,
                        core.pc.wrapping_add(ws),
                        MemoryAccessType::Sequential,
                        MemoryAccessWidth::MemoryAccess32,
                    );
                    let written = if rd == REG_PC {
                        CoreView { pc: data, ..charged }
                    } else {
                        CoreView { gpr: charged.gpr.update(rd as int, data), ..charged }
                    };
                    let ticked = spec_tick(written);
                    if rd == REG_PC {
                        spec_charge(
                            spec_charge(
                                ticked,
                                luts,
                                ticked.pc,
                                MemoryAccessType::Sequential,
                                MemoryAccessWidth::MemoryAccess32,
                            ),
                            luts,
                            ticked.pc.wrapping_add(ws),
                            MemoryAccessType::NonSequential,
                            MemoryAccessWidth::MemoryAccess32,
                        )
                    } else {
                        ticked
                    }
                } else {
                    let width = if insn.spec_transfer_size() == 1 {
                        MemoryAccessWidth::MemoryAccess8
                    } else {
                        MemoryAccessWidth::MemoryAccess32
                    };
                    spec_charge(
                        spec_charge(
                            core,
                            luts,
                            addr,
                            MemoryAccessType::NonSequential,
                            MemoryAccessWidth::MemoryAccess32,
                        ),
                        luts,
                        addr,
                        MemoryAccessType::NonSequential,
                        width,
                    )
                };
                if insn.spec_write_back_flag() {
                    if rn == REG_PC {
                        CoreView { pc: eff, ..done }
                    } else {
                        CoreView { gpr: done.gpr.update(rn as int, eff), ..done }
                    }
                } else {
                    done
                }
            },
        }
    }
}

/// The bus after a load or store: the single read or write the transfer
/// makes, and nothing on the error paths.
pub open spec fn spec_ldr_str_bus_step(
    core: CoreView,
    bus: crate::bus::SysBusView,
    insn: ArmInstruction,
) -> crate::bus::SysBusView {
    if insn.spec_write_back_flag() && insn.spec_rd() == insn.spec_rn() {
        bus
    } else {
        match spec_ldr_offset_val(core, insn) {
            Err(e) => bus,
            Ok(off) => {
                let addr = spec_ldr_str_addr(core, insn, off);
                if insn.spec_load_flag() {
                    if insn.spec_transfer_size() == 1 {
                        bus.read_8_step(addr)
                    } else {
                        bus.read_32_step(addr)
                    }
                } else {
                    let value = core.reg(insn.spec_rd() as int);
                    if insn.spec_transfer_size() == 1 {
                        bus.write_8_step(addr, value as u8)
                    } else {
                        bus.write_32_step(addr, value)
                    }
                }
            },
        }
    }
}

/// Whether a store lands on the wait-control register, so that the bus
/// reprograms its cycle tables.
pub open spec fn spec_ldr_str_touches_waitcnt(
    core: CoreView,
    bus: crate::bus::SysBusView,
    insn: ArmInstruction,
) -> bool {
    &&& !(insn.spec_write_back_flag() && insn.spec_rd() == insn.spec_rn())
    &&& spec_ldr_offset_val(core, insn) is Ok
    &&& !insn.spec_load_flag()
    &&& {
        let addr = spec_ldr_str_addr(core, insn, spec_ldr_offset_val(core, insn)->Ok_0);
        if insn.spec_transfer_size() == 1 {
            bus.waitcnt_touched_8(addr)
        } else {
            bus.waitcnt_touched_32(addr)
        }
    }
}

impl Core {
    /// Executes one decoded ARM instruction against the bus: a failed
    /// condition only advances the clock; the recognised formats run; the
    /// rest are reported unimplemented.
    pub fn exec_arm(&mut self, sysbus: &mut crate::bus::SysBus, insn: ArmInstruction) -> (r:
        CpuExecResult)
        requires
            old(self)@.wf(),
            old(sysbus)@.wf(),
        ensures
            final(self)@.wf(),
            final(sysbus)@.wf(),
            !spec_cond_passed(insn.spec_cond(), old(self).cpsr) ==> {
                &&& r == CpuExecResult::Ok(CpuPipelineAction::IncPC)
                &&& final(self)@ =~~= spec_cond_fail_step(
                    old(self)@,
                    old(sysbus).cycle_luts,
                    insn,
                )
                &&& final(sysbus)@ == old(sysbus)@
                &&& final(sysbus).cycle_luts == old(sysbus).cycle_luts
            },
            spec_cond_passed(insn.spec_cond(), old(self).cpsr) ==> match insn.spec_fmt() {
                ArmFormat::BranchExchange => {
                    &&& r == CpuExecResult::Ok(CpuPipelineAction::Flush)
                    &&& final(self)@ =~~= spec_bx_step(old(self)@, old(sysbus).cycle_luts, insn)
                    &&& final(sysbus)@ == old(sysbus)@
                    &&& final(sysbus).cycle_luts == old(sysbus).cycle_luts
                },
                ArmFormat::BranchLink => {
                    &&& r == CpuExecResult::Ok(CpuPipelineAction::Flush)
                    &&& final(self)@ =~~= spec_b_bl_step(
                        old(self)@,
                        old(sysbus).cycle_luts,
                        insn,
                    )
                    &&& final(sysbus)@ == old(sysbus)@
                    &&& final(sysbus).cycle_luts == old(sysbus).cycle_luts
                },
                ArmFormat::SoftwareInterrupt => {
                    &&& r == CpuExecResult::Ok(CpuPipelineAction::Flush)
                    &&& final(self)@ =~~= spec_swi_step(old(self)@)
                    &&& final(sysbus)@ == old(sysbus)@
                    &&& final(sysbus).cycle_luts == old(sysbus).cycle_luts
                },
                ArmFormat::DataProcessing => {
                    &&& r == spec_dp_result(old(self)@, insn)
                    &&& final(self)@ =~~= spec_dp_step(old(self)@, old(sysbus).cycle_luts, insn)
                    &&& final(sysbus)@ == old(sysbus)@
                    &&& final(sysbus).cycle_luts == old(sysbus).cycle_luts
                },
                ArmFormat::SingleDataTransfer => {
                    &&& r == spec_ldr_str_result(old(self)@, insn)
                    &&& final(self)@ =~~= spec_ldr_str_core_step(
                        old(self)@,
                        old(sysbus)@,
                        old(sysbus).cycle_luts,
                        insn,
                    )
                    &&& final(sysbus)@ =~~= spec_ldr_str_bus_step(old(self)@, old(sysbus)@, insn)
                    &&& !spec_ldr_str_touches_waitcnt(old(self)@, old(sysbus)@, insn)
                        ==> final(sysbus).cycle_luts == old(sysbus).cycle_luts
                    &&& spec_ldr_str_touches_waitcnt(old(self)@, old(sysbus)@, insn)
                        ==> crate::cycles::spec_gamepak_entries(
                        final(sysbus).cycle_luts,
                        final(sysbus)@.waitcnt_of(),
                    )
                },
                ArmFormat::Undecoded => {
                    &&& r == CpuExecResult::Err(CpuError::UnimplementedCpuInstruction(insn))
                    &&& final(self)@ =~~= old(self)@
                    &&& final(sysbus)@ == old(sysbus)@
                    &&& final(sysbus).cycle_luts == old(sysbus).cycle_luts
                },
            },
    {
        if !self.check_arm_cond(insn.cond()) {
            let ws: u32 = self.word_size();
            self.add_cycles(
                insn.pc.wrapping_add(ws),
                sysbus,
                MemoryAccessType::Sequential,
                MemoryAccessWidth::MemoryAccess32,
            );
            self.add_cycle();
            return Ok(CpuPipelineAction::IncPC);
        }
        match insn.fmt() {
            ArmFormat::BranchExchange => self.exec_bx(sysbus, insn),
            ArmFormat::BranchLink => self.exec_b_bl(sysbus, insn),
            ArmFormat::DataProcessing => self.exec_data_processing(sysbus, insn),
            ArmFormat::SoftwareInterrupt => self.exec_swi(sysbus, insn),
            ArmFormat::SingleDataTransfer => self.exec_ldr_str(sysbus, insn),
            ArmFormat::Undecoded => Err(CpuError::UnimplementedCpuInstruction(insn)),
        }
    }

    /// A branch, optionally linking: 2S + 1N.
    pub fn exec_b_bl(&mut self, sysbus: &mut crate::bus::SysBus, insn: ArmInstruction) -> (r:
        CpuExecResult)
        requires
            old(self)@.wf(),
            old(sysbus)@.wf(),
        ensures
            final(self)@.wf(),
            r == CpuExecResult::Ok(CpuPipelineAction::Flush),
            final(self)@ =~~= spec_b_bl_step(old(self)@, old(sysbus).cycle_luts, insn),
            final(sysbus)@ == old(sysbus)@,
            final(sysbus).cycle_luts == old(sysbus).cycle_luts,
    {
        let ws: u32 = self.word_size();
        if insn.link_flag() {
            self.set_reg(REG_LR, self.pc & 0xFFFFFFFE);
        }
        self.add_cycles(
            self.pc,
            sysbus,
            MemoryAccessType::NonSequential,
            MemoryAccessWidth::MemoryAccess32,
        );
        self.pc = self.pc.wrapping_add(insn.branch_offset());
        self.add_cycles(
            self.pc,
            sysbus,
            MemoryAccessType::Sequential,
            MemoryAccessWidth::MemoryAccess32,
        );
        self.add_cycles(
            self.pc.wrapping_add(ws),
            sysbus,
            MemoryAccessType::Sequential,
            MemoryAccessWidth::MemoryAccess32,
        );
        Ok(CpuPipelineAction::Flush)
    }

    /// A branch-exchange into ARM or THUMB state: 2S + 1N.
    pub fn exec_bx(&mut self, sysbus: &mut crate::bus::SysBus, insn: ArmInstruction) -> (r:
        CpuExecResult)
        requires
            old(self)@.wf(),
            old(sysbus)@.wf(),
        ensures
            final(self)@.wf(),
            r == CpuExecResult::Ok(CpuPipelineAction::Flush),
            final(self)@ =~~= spec_bx_step(old(self)@, old(sysbus).cycle_luts, insn),
            final(sysbus)@ == old(sysbus)@,
            final(sysbus).cycle_luts == old(sysbus).cycle_luts,
    {
        let rn: u32 = self.get_reg(insn.rn());
        if rn & 1 == 1 {
            self.cpsr.state = CpuState::THUMB;
        } else {
            self.cpsr.state = CpuState::ARM;
        }
        self.add_cycles(
            self.pc,
            sysbus,
            MemoryAccessType::NonSequential,
            MemoryAccessWidth::MemoryAccess32,
        );
        self.pc = rn & 0xFFFFFFFE;
        let ws: u32 = self.word_size();
        self.add_cycles(
            self.pc,
            sysbus,
            MemoryAccessType::Sequential,
            MemoryAccessWidth::MemoryAccess32,
        );
        self.add_cycles(
            self.pc.wrapping_add(ws),
            sysbus,
            MemoryAccessType::Sequential,
            MemoryAccessWidth::MemoryAccess32,
        );
        Ok(CpuPipelineAction::Flush)
    }

    /// A software interrupt: control transfers to the interrupt vector.
    pub fn exec_swi(&mut self, sysbus: &mut crate::bus::SysBus, insn: ArmInstruction) -> (r:
        CpuExecResult)
        requires
            old(self)@.wf(),
        ensures
            final(self)@.wf(),
            r == CpuExecResult::Ok(CpuPipelineAction::Flush),
            final(self)@ =~~= spec_swi_step(old(self)@),
            final(sysbus)@ == old(sysbus)@,
            final(sysbus).cycle_luts == old(sysbus).cycle_luts,
    {
        self.gpr[REG_LR] = self.pc;
        self.pc = 0x08;
        self.cpsr.state = CpuState::ARM;
        Ok(CpuPipelineAction::Flush)
    }

    /// A data-processing instruction: 1S, plus 1I for a register-shifted
    /// operand and 1S + 1N when the destination is the program counter.
    pub fn exec_data_processing(
        &mut self,
        sysbus: &mut crate::bus::SysBus,
        insn: ArmInstruction,
    ) -> (r: CpuExecResult)
        requires
            old(self)@.wf(),
            old(sysbus)@.wf(),
        ensures
            final(self)@.wf(),
            r == spec_dp_result(old(self)@, insn),
            final(self)@ =~~= spec_dp_step(old(self)@, old(sysbus).cycle_luts, insn),
            final(sysbus)@ == old(sysbus)@,
            final(sysbus).cycle_luts == old(sysbus).cycle_luts,
    {
        let ws: u32 = self.word_size();
        let op1: u32 = self.get_reg(insn.rn());
        let rd: usize = insn.rd();
        if rd == REG_PC {
            self.add_cycles(
                self.pc,
                sysbus,
                MemoryAccessType::NonSequential,
                MemoryAccessWidth::MemoryAccess32,
            );
        }
        let op2r: CpuResult<u32> = match insn.operand2() {
            ArmShiftedValue::RotatedImmediate(v, rot) => Ok(Core::barrel_shift(
                v,
                rot,
                ArmShiftType::ROR,
            )),
            ArmShiftedValue::ShiftedRegister { reg, shift, added } => {
                proof {
                    let raw = insn.raw;
                    assert(raw & 0xF < 16 && (raw >> 8) & 0xF < 16) by (bit_vector);
                }
                self.add_cycle();
                self.register_shift(reg, shift)
            },
            ArmShiftedValue::ImmediateValue(v) => Ok(v),
        };
        let op2: u32 = match op2r {
            Ok(v) => v,
            Err(e) => {
                return Err(e);
            },
        };
        let opcode: ArmOpCode = insn.opcode();
        let set_flags: bool = match opcode {
            ArmOpCode::TST | ArmOpCode::TEQ | ArmOpCode::CMP | ArmOpCode::CMN => true,
            _ => insn.set_cond_flag(),
        };
        let mut pipeline_action: CpuPipelineAction = CpuPipelineAction::IncPC;
        let result: Option<u32> = self.alu(opcode, op1, op2, set_flags);
        if let Some(result) = result {
            self.set_reg(rd, result);
            if rd == REG_PC {
                pipeline_action = CpuPipelineAction::Flush;
                self.add_cycles(
                    self.pc,
                    sysbus,
                    MemoryAccessType::Sequential,
                    MemoryAccessWidth::MemoryAccess32,
                );
            }
        }
        self.add_cycles(
            self.pc.wrapping_add(ws),
            sysbus,
            MemoryAccessType::Sequential,
            MemoryAccessWidth::MemoryAccess32,
        );
        Ok(pipeline_action)
    }

    /// The signed offset a load or store applies to its base register.
    pub fn get_rn_offset(&self, insn: &ArmInstruction) -> (r: CpuResult<u32>)
        requires
            self@.wf(),
        ensures
            r == spec_ldr_offset_val(self@, *insn),
    {
        match insn.ldr_str_offset() {
            ArmShiftedValue::ImmediateValue(off) => Ok(off),
            ArmShiftedValue::ShiftedRegister { reg, shift, added } => {
                proof {
                    let raw = insn.raw;
                    assert(raw & 0xF < 16 && (raw >> 8) & 0xF < 16) by (bit_vector);
                }
                match self.register_shift(reg, shift) {
                    Ok(abs) => {
                        if added == Some(true) {
                            Ok(abs)
                        } else {
                            Ok(0u32.wrapping_sub(abs))
                        }
                    },
                    Err(e) => Err(e),
                }
            },
            ArmShiftedValue::RotatedImmediate(v, rot) => Err(CpuError::IllegalInstruction),
        }
    }

    /// A single data transfer. Loads cost 1S + 1N + 1I (plus 1S + 1N when
    /// the destination is the program counter); stores cost 2N.
    #[verifier::rlimit(60)]
    pub fn exec_ldr_str(&mut self, sysbus: &mut crate::bus::SysBus, insn: ArmInstruction) -> (r:
        CpuExecResult)
        requires
            old(self)@.wf(),
            old(sysbus)@.wf(),
        ensures
            final(self)@.wf(),
            final(sysbus)@.wf(),
            r == spec_ldr_str_result(old(self)@, insn),
            final(self)@ =~~= spec_ldr_str_core_step(
                old(self)@,
                old(sysbus)@,
                old(sysbus).cycle_luts,
                insn,
            ),
            final(sysbus)@ =~~= spec_ldr_str_bus_step(old(self)@, old(sysbus)@, insn),
            !spec_ldr_str_touches_waitcnt(old(self)@, old(sysbus)@, insn)
                ==> final(sysbus).cycle_luts == old(sysbus).cycle_luts,
            spec_ldr_str_touches_waitcnt(old(self)@, old(sysbus)@, insn)
                ==> crate::cycles::spec_gamepak_entries(
                final(sysbus).cycle_luts,
                final(sysbus)@.waitcnt_of(),
            ),
    {
        if insn.write_back_flag() && insn.rd() == insn.rn() {
            return Err(CpuError::IllegalInstruction);
        }
        let ws: u32 = self.word_size();
        let rn: usize = insn.rn();
        let rd: usize = insn.rd();
        let mut addr: u32 = self.get_reg(rn);
        if rn == REG_PC {
            addr = addr.wrapping_add(8);  // prefetching
        }
        let offset: u32 = match self.get_rn_offset(&insn) {
            Ok(v) => v,
            Err(e) => {
                return Err(e);
            },
        };
        let effective_addr: u32 = addr.wrapping_add(offset);
        addr = if insn.pre_index_flag() {
            effective_addr
        } else {
            addr
        };
        let mut pipeline_action: CpuPipelineAction = CpuPipelineAction::IncPC;
        if insn.load_flag() {
            let data: u32 = if insn.transfer_size() == 1 {
                self.add_cycles(
                    addr,
                    sysbus,
                    MemoryAccessType::NonSequential,
                    MemoryAccessWidth::MemoryAccess8,
                );
                sysbus.read_8(addr) as u32
            } else {
                self.add_cycles(
                    addr,
                    sysbus,
                    MemoryAccessType::NonSequential,
                    MemoryAccessWidth::MemoryAccess32,
                );
                sysbus.read_32(addr)
            };
            self.add_cycles(
                self.pc.wrapping_add(ws),
                sysbus,
                MemoryAccessType::Sequential,
                MemoryAccessWidth::MemoryAccess32,
            );
            self.set_reg(rd, data);
            self.add_cycle();
            if rd == REG_PC {
                self.add_cycles(
                    self.pc,
                    sysbus,
                    MemoryAccessType::Sequential,
                    MemoryAccessWidth::MemoryAccess32,
                );
                self.add_cycles(
                    self.pc.wrapping_add(ws),
                    sysbus,
                    MemoryAccessType::NonSequential,
                    MemoryAccessWidth::MemoryAccess32,
                );
                pipeline_action = CpuPipelineAction::Flush;
            }
        } else {
            self.add_cycles(
                addr,
                sysbus,
                MemoryAccessType::NonSequential,
                MemoryAccessWidth::MemoryAccess32,
            );
            let value: u32 = self.get_reg(rd);
            if insn.transfer_size() == 1 {
                self.add_cycles(
                    addr,
                    sysbus,
                    MemoryAccessType::NonSequential,
                    MemoryAccessWidth::MemoryAccess8,
                );
                sysbus.write_8(addr, value as u8);
            } else {
                self.add_cycles(
                    addr,
                    sysbus,
                    MemoryAccessType::NonSequential,
                    MemoryAccessWidth::MemoryAccess32,
                );
                sysbus.write_32(addr, value);
            }
        }
        if insn.write_back_flag() {
            self.set_reg(rn, effective_addr);
        }
        Ok(pipeline_action)
    }
}

} // verus!

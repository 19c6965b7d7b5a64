//! Core memory substrate of a Game Boy Advance emulator: the system bus,
//! the cartridge with its backup media, and the cycle accounting that the
//! CPU consults on every access.

use vstd::prelude::*;

mod backup;
mod bus;
mod cartridge;
mod cpu;
mod cycles;
mod gpio;
mod header;
mod iodev;
mod laws;
mod mem;
mod waitcnt;

pub use backup::BackupType;
pub use backup::EepromController;
pub use backup::EepromPhase;
pub use backup::Flash;
pub use backup::FlashMode;
pub use bus::load_shifted;
pub use bus::SysBus;
pub use cartridge::detect_backup_type;
pub use cartridge::is_gpio_access;
pub use cartridge::BackupMedia;
pub use cartridge::Cartridge;
pub use cartridge::GamepakBuilder;
pub use cartridge::SymbolTable;
pub use cpu::ArmCond;
pub use cpu::ArmFormat;
pub use cpu::ArmInstruction;
pub use cpu::ArmOpCode;
pub use cpu::ArmRegisterShift;
pub use cpu::ArmShiftType;
pub use cpu::ArmShiftedValue;
pub use cpu::Core;
pub use cpu::CpuError;
pub use cpu::CpuExecResult;
pub use cpu::CpuPipelineAction;
pub use cpu::CpuPipelineRegs;
pub use cpu::CpuResult;
pub use cpu::CpuState;
pub use cpu::StatusRegister;
pub use cpu::REG_LR;
pub use cpu::REG_PC;
pub use cycles::CycleLookupTables;
pub use gpio::Gpio;
pub use header::compute_checksum;
pub use header::CartridgeHeader;
pub use header::LoadError;
pub use iodev::IoDevices;
pub use mem::Addr;
pub use mem::MemoryAccessType;
pub use mem::MemoryAccessWidth;
pub use waitcnt::WaitControl;

verus! {

} // verus!

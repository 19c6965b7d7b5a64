//! Address and access types shared by the bus and the cartridge.

use vstd::prelude::*;

verus! {

/// A 32-bit guest address.
pub type Addr = u32;

/// The page an address lies in: its top byte.
pub open spec fn spec_page(addr: Addr) -> u32 {
    addr >> 24
}

pub fn page(addr: Addr) -> (r: u32)
    ensures
        r == spec_page(addr),
{
    addr >> 24
}

/// Sequential or non-sequential access, as the ARM7TDMI bus classifies it.
#[derive(Clone, Copy, Debug, PartialEq, Eq, Structural)]
pub enum MemoryAccessType {
    NonSequential,
    Sequential,
}

impl MemoryAccessType {
    /// The one-letter mnemonic the access class is written with.
    pub fn mnemonic(&self) -> (r: &'static str)
        ensures
            *self == MemoryAccessType::NonSequential ==> r@ == "N"@,
            *self == MemoryAccessType::Sequential ==> r@ == "S"@,
    {
        match self {
            MemoryAccessType::NonSequential => "N",
            MemoryAccessType::Sequential => "S",
        }
    }
}

/// Width of a bus access.
#[derive(Clone, Copy, Debug, PartialEq, Eq, Structural)]
pub enum MemoryAccessWidth {
    MemoryAccess8,
    MemoryAccess16,
    MemoryAccess32,
}

/// The little-endian half-word at `off` of a byte store.
pub open spec fn spec_half_at(mem: Seq<u8>, off: int) -> u16 {
    ((mem[off] as u16) | ((mem[off + 1] as u16) << 8)) as u16
}

/// The little-endian word at `off` of a byte store.
pub open spec fn spec_word_at(mem: Seq<u8>, off: int) -> u32 {
    ((spec_half_at(mem, off) as u32) | ((spec_half_at(mem, off + 2) as u32) << 16)) as u32
}

/// The byte store after a little-endian half-word is stored at `off`.
pub open spec fn spec_store_half(mem: Seq<u8>, off: int, value: u16) -> Seq<u8> {
    mem.update(off, value as u8).update(off + 1, (value >> 8) as u8)
}

/// The byte store after a little-endian word is stored at `off`.
pub open spec fn spec_store_word(mem: Seq<u8>, off: int, value: u32) -> Seq<u8> {
    spec_store_half(spec_store_half(mem, off, value as u16), off + 2, (value >> 16) as u16)
}

pub fn read_half(mem: &Vec<u8>, off: usize) -> (r: u16)
    requires
        off + 2 <= mem@.len(),
    ensures
        r == spec_half_at(mem@, off as int),
{
    let n: usize = mem.len();
    let lo: u8 = mem[off];
    let hi: u8 = mem[off + 1];
    (lo as u16) | ((hi as u16) << 8)
}

pub fn read_word(mem: &Vec<u8>, off: usize) -> (r: u32)
    requires
        off + 4 <= mem@.len(),
    ensures
        r == spec_word_at(mem@, off as int),
{
    let n: usize = mem.len();
    let lo: u16 = read_half(mem, off);
    let hi: u16 = read_half(mem, off + 2);
    (lo as u32) | ((hi as u32) << 16)
}

pub fn write_byte(mem: &mut Vec<u8>, off: usize, value: u8)
    requires
        off < old(mem)@.len(),
    ensures
        final(mem)@ =~= old(mem)@.update(off as int, value),
{
    mem.set(off, value);
}

pub fn write_half(mem: &mut Vec<u8>, off: usize, value: u16)
    requires
        off + 2 <= old(mem)@.len(),
    ensures
        final(mem)@ =~= spec_store_half(old(mem)@, off as int, value),
{
    let n: usize = mem.len();
    mem.set(off, #[verifier::truncate] (value as u8));
    mem.set(off + 1, (value >> 8) as u8);
}

pub fn write_word(mem: &mut Vec<u8>, off: usize, value: u32)
    requires
        off + 4 <= old(mem)@.len(),
    ensures
        final(mem)@ =~= spec_store_word(old(mem)@, off as int, value),
{
    let n: usize = mem.len();
    write_half(mem, off, #[verifier::truncate] (value as u16));
    write_half(mem, off + 2, (value >> 16) as u16);
}

} // verus!

//! The memory-mapped I/O register block. Only its byte store and the
//! wait-control register are modelled here; the bus observes writes that
//! land on the wait-control register and reprograms its cycle tables.

use vstd::prelude::*;

use crate::mem::spec_half_at;
use crate::mem::spec_store_half;
use crate::mem::spec_store_word;
use crate::mem::spec_word_at;
use crate::waitcnt::WaitControl;

verus! {

/// Bytes of the register file: the mirrored `0x400`-byte block plus the
/// isolated post-boot flag area a remapped offset reaches.
pub const IO_REGS_SIZE: usize = 0x804;

/// Offset of the wait-control register.
pub const WAITCNT_OFFSET: usize = 0x204;

/// The I/O device block as the bus sees it: a byte-addressed register
/// file.
#[derive(Clone, Debug)]
pub struct IoDevices {
    pub regs: Vec<u8>,
}

impl IoDevices {
    pub open spec fn wf(self) -> bool {
        self.regs@.len() == IO_REGS_SIZE
    }

    /// The wait-control word the register file currently holds.
    pub open spec fn spec_waitcnt(self) -> WaitControl {
        WaitControl { raw: spec_half_at(self.regs@, WAITCNT_OFFSET as int) }
    }

    pub fn new() -> (r: IoDevices)
        ensures
            r.wf(),
            r.regs@ =~= Seq::<u8>::new(IO_REGS_SIZE as nat, |i: int| 0u8),
    {
        let mut regs: Vec<u8> = Vec::new();
        let mut i: usize = 0;
        while i < IO_REGS_SIZE
            invariant
                i <= IO_REGS_SIZE,
                regs@ =~= Seq::<u8>::new(i as nat, |j: int| 0u8),
            decreases IO_REGS_SIZE - i,
        {
            regs.push(0);
            i = i + 1;
        }
        IoDevices { regs }
    }

    pub fn waitcnt(&self) -> (r: WaitControl)
        requires
            self.wf(),
        ensures
            r == self.spec_waitcnt(),
    {
        let lo: u8 = self.regs[WAITCNT_OFFSET];
        let hi: u8 = self.regs[WAITCNT_OFFSET + 1];
        WaitControl { raw: (lo as u16) | ((hi as u16) << 8) }
    }

    pub fn read_8(&self, offset: usize) -> (r: u8)
        requires
            self.wf(),
            offset < IO_REGS_SIZE,
        ensures
            r == self.regs@[offset as int],
    {
        self.regs[offset]
    }

    pub fn read_16(&self, offset: usize) -> (r: u16)
        requires
            self.wf(),
            offset + 2 <= IO_REGS_SIZE,
        ensures
            r == spec_half_at(self.regs@, offset as int),
    {
        let lo: u8 = self.regs[offset];
        let hi: u8 = self.regs[offset + 1];
        (lo as u16) | ((hi as u16) << 8)
    }

    pub fn read_32(&self, offset: usize) -> (r: u32)
        requires
            self.wf(),
            offset + 4 <= IO_REGS_SIZE,
        ensures
            r == spec_word_at(self.regs@, offset as int),
    {
        let lo: u16 = self.read_16(offset);
        let hi: u16 = self.read_16(offset + 2);
        (lo as u32) | ((hi as u32) << 16)
    }

    pub fn write_8(&mut self, offset: usize, value: u8)
        requires
            old(self).wf(),
            offset < IO_REGS_SIZE,
        ensures
            final(self).wf(),
            final(self).regs@ =~= old(self).regs@.update(offset as int, value),
    {
        self.regs.set(offset, value);
    }

    pub fn write_16(&mut self, offset: usize, value: u16)
        requires
            old(self).wf(),
            offset + 2 <= IO_REGS_SIZE,
        ensures
            final(self).wf(),
            final(self).regs@ =~= spec_store_half(old(self).regs@, offset as int, value),
    {
        self.regs.set(offset, #[verifier::truncate] (value as u8));
        self.regs.set(offset + 1, (value >> 8) as u8);
    }

    pub fn write_32(&mut self, offset: usize, value: u32)
        requires
            old(self).wf(),
            offset + 4 <= IO_REGS_SIZE,
        ensures
            final(self).wf(),
            final(self).regs@ =~= spec_store_word(old(self).regs@, offset as int, value),
    {
        let lo: u16 = #[verifier::truncate] (value as u16);
        let hi: u16 = (value >> 16) as u16;
        self.write_16(offset, lo);
        self.write_16(offset + 2, hi);
    }
}

} // verus!

//! Cycle lookup tables: per-page access costs for every combination of
//! sequential/non-sequential access and 16/32-bit width.
//!
//! The tables are indexed by the top byte of the address (one of sixteen
//! pages). RAM timings are fixed at construction; the gamepak entries are
//! recomputed each time the guest writes the wait-control register.

use vstd::prelude::*;

use crate::waitcnt::WaitControl;

verus! {

pub const CYCLE_LUT_SIZE: usize = 0x10;

pub const PAGE_BIOS: usize = 0x00;
pub const PAGE_EWRAM: usize = 0x02;
pub const PAGE_IWRAM: usize = 0x03;
pub const PAGE_IOMEM: usize = 0x04;
pub const PAGE_PALRAM: usize = 0x05;
pub const PAGE_VRAM: usize = 0x06;
pub const PAGE_OAM: usize = 0x07;
pub const PAGE_GAMEPAK_WS0: usize = 0x08;
pub const PAGE_GAMEPAK_WS1: usize = 0x0A;
pub const PAGE_GAMEPAK_WS2: usize = 0x0C;
pub const PAGE_SRAM_LO: usize = 0x0E;
pub const PAGE_SRAM_HI: usize = 0x0F;

/// Non-sequential gamepak wait counts selected by a 2-bit field.
pub closed spec fn spec_nonseq_cycles(sel: u16) -> usize {
    if sel == 0 {
        4
    } else if sel == 1 {
        3
    } else if sel == 2 {
        2
    } else {
        8
    }
}

/// Sequential WS0 wait counts selected by a 1-bit field.
pub closed spec fn spec_ws0_seq_cycles(sel: u16) -> usize {
    if sel == 0 {
        2
    } else {
        1
    }
}

/// Sequential WS1 wait counts selected by a 1-bit field.
pub closed spec fn spec_ws1_seq_cycles(sel: u16) -> usize {
    if sel == 0 {
        4
    } else {
        1
    }
}

/// Sequential WS2 wait counts selected by a 1-bit field.
pub closed spec fn spec_ws2_seq_cycles(sel: u16) -> usize {
    if sel == 0 {
        8
    } else {
        1
    }
}

fn nonseq_cycles(sel: u16) -> (r: usize)
    requires
        sel < 4,
    ensures
        r == spec_nonseq_cycles(sel),
{
    if sel == 0 {
        4
    } else if sel == 1 {
        3
    } else if sel == 2 {
        2
    } else {
        8
    }
}

fn ws0_seq_cycles(sel: u16) -> (r: usize)
    ensures
        r == spec_ws0_seq_cycles(sel),
{
    if sel == 0 {
        2
    } else {
        1
    }
}

fn ws1_seq_cycles(sel: u16) -> (r: usize)
    ensures
        r == spec_ws1_seq_cycles(sel),
{
    if sel == 0 {
        4
    } else {
        1
    }
}

fn ws2_seq_cycles(sel: u16) -> (r: usize)
    ensures
        r == spec_ws2_seq_cycles(sel),
{
    if sel == 0 {
        8
    } else {
        1
    }
}

/// The 16-bit non-sequential cost the wait-control word programs for a
/// gamepak page (both mirrors of a waitstate share one timing; the SRAM
/// pages follow the SRAM wait selector).
pub open spec fn spec_gamepak_n16(waitcnt: WaitControl, p: int) -> usize {
    if PAGE_GAMEPAK_WS0 <= p < PAGE_GAMEPAK_WS1 {
        (1 + spec_nonseq_cycles(waitcnt.spec_ws0_first_access())) as usize
    } else if PAGE_GAMEPAK_WS1 <= p < PAGE_GAMEPAK_WS2 {
        (1 + spec_nonseq_cycles(waitcnt.spec_ws1_first_access())) as usize
    } else if PAGE_GAMEPAK_WS2 <= p < PAGE_SRAM_LO {
        (1 + spec_nonseq_cycles(waitcnt.spec_ws2_first_access())) as usize
    } else {
        (1 + spec_nonseq_cycles(waitcnt.spec_sram_wait_control())) as usize
    }
}

/// The 16-bit sequential cost the wait-control word programs for a gamepak
/// page. SRAM charges its non-sequential cost at every access.
pub open spec fn spec_gamepak_s16(waitcnt: WaitControl, p: int) -> usize {
    if PAGE_GAMEPAK_WS0 <= p < PAGE_GAMEPAK_WS1 {
        (1 + spec_ws0_seq_cycles(waitcnt.spec_ws0_second_access())) as usize
    } else if PAGE_GAMEPAK_WS1 <= p < PAGE_GAMEPAK_WS2 {
        (1 + spec_ws1_seq_cycles(waitcnt.spec_ws1_second_access())) as usize
    } else if PAGE_GAMEPAK_WS2 <= p < PAGE_SRAM_LO {
        (1 + spec_ws2_seq_cycles(waitcnt.spec_ws2_second_access())) as usize
    } else {
        (1 + spec_nonseq_cycles(waitcnt.spec_sram_wait_control())) as usize
    }
}

/// The 32-bit non-sequential cost: on ROM pages a 32-bit access splits into
/// one non-sequential and one sequential 16-bit half; SRAM is byte-wide and
/// charges its single cost at every width.
pub open spec fn spec_gamepak_n32(waitcnt: WaitControl, p: int) -> usize {
    if PAGE_GAMEPAK_WS0 <= p < PAGE_SRAM_LO {
        (spec_gamepak_n16(waitcnt, p) + spec_gamepak_s16(waitcnt, p)) as usize
    } else {
        spec_gamepak_n16(waitcnt, p)
    }
}

/// The 32-bit sequential cost: two sequential 16-bit halves on ROM pages.
pub open spec fn spec_gamepak_s32(waitcnt: WaitControl, p: int) -> usize {
    if PAGE_GAMEPAK_WS0 <= p < PAGE_SRAM_LO {
        (2 * spec_gamepak_s16(waitcnt, p)) as usize
    } else {
        spec_gamepak_n16(waitcnt, p)
    }
}

/// The four per-page cost tables.
#[verifier::ext_equal]
#[derive(Clone, Debug)]
pub struct CycleLookupTables {
    pub n_cycles32: [usize; 16],
    pub s_cycles32: [usize; 16],
    pub n_cycles16: [usize; 16],
    pub s_cycles16: [usize; 16],
}

/// Every gamepak-page entry (pages `0x08..=0x0F`) holds the cost the given
/// wait-control word selects.
pub open spec fn spec_gamepak_entries(t: CycleLookupTables, waitcnt: WaitControl) -> bool {
    &&& forall|p: int| PAGE_GAMEPAK_WS0 <= p <= PAGE_SRAM_HI ==> #[trigger] t.n_cycles16@[p]
        == spec_gamepak_n16(waitcnt, p)
    &&& forall|p: int| PAGE_GAMEPAK_WS0 <= p <= PAGE_SRAM_HI ==> #[trigger] t.s_cycles16@[p]
        == spec_gamepak_s16(waitcnt, p)
    &&& forall|p: int| PAGE_GAMEPAK_WS0 <= p <= PAGE_SRAM_HI ==> #[trigger] t.n_cycles32@[p]
        == spec_gamepak_n32(waitcnt, p)
    &&& forall|p: int| PAGE_GAMEPAK_WS0 <= p <= PAGE_SRAM_HI ==> #[trigger] t.s_cycles32@[p]
        == spec_gamepak_s32(waitcnt, p)
}

impl Default for CycleLookupTables {
    /// Every entry starts at the single base bus cycle.
    fn default() -> (r: CycleLookupTables)
        ensures
            forall|p: int| 0 <= p < 16 ==> #[trigger] r.n_cycles32@[p] == 1,
            forall|p: int| 0 <= p < 16 ==> #[trigger] r.s_cycles32@[p] == 1,
            forall|p: int| 0 <= p < 16 ==> #[trigger] r.n_cycles16@[p] == 1,
            forall|p: int| 0 <= p < 16 ==> #[trigger] r.s_cycles16@[p] == 1,
    {
        CycleLookupTables {
            n_cycles32: [1; 16],
            s_cycles32: [1; 16],
            n_cycles16: [1; 16],
            s_cycles16: [1; 16],
        }
    }
}

impl CycleLookupTables {
    /// Programs the fixed RAM timings: EWRAM is a 16-bit bus with 3-cycle
    /// accesses (so 6 for a 32-bit access); palette RAM, VRAM and OAM cost
    /// 1 per 16-bit half. Every other entry is left as it was.
    pub fn init(&mut self)
        ensures
            final(self).n_cycles32@ =~= old(self).n_cycles32@
                .update(PAGE_EWRAM as int, 6usize)
                .update(PAGE_OAM as int, 2usize)
                .update(PAGE_VRAM as int, 2usize)
                .update(PAGE_PALRAM as int, 2usize),
            final(self).s_cycles32@ =~= old(self).s_cycles32@
                .update(PAGE_EWRAM as int, 6usize)
                .update(PAGE_OAM as int, 2usize)
                .update(PAGE_VRAM as int, 2usize)
                .update(PAGE_PALRAM as int, 2usize),
            final(self).n_cycles16@ =~= old(self).n_cycles16@
                .update(PAGE_EWRAM as int, 3usize)
                .update(PAGE_OAM as int, 1usize)
                .update(PAGE_VRAM as int, 1usize)
                .update(PAGE_PALRAM as int, 1usize),
            final(self).s_cycles16@ =~= old(self).s_cycles16@
                .update(PAGE_EWRAM as int, 3usize)
                .update(PAGE_OAM as int, 1usize)
                .update(PAGE_VRAM as int, 1usize)
                .update(PAGE_PALRAM as int, 1usize),
    {
        self.n_cycles32[PAGE_EWRAM] = 6;
        self.s_cycles32[PAGE_EWRAM] = 6;
        self.n_cycles16[PAGE_EWRAM] = 3;
        self.s_cycles16[PAGE_EWRAM] = 3;

        self.n_cycles32[PAGE_OAM] = 2;
        self.s_cycles32[PAGE_OAM] = 2;
        self.n_cycles16[PAGE_OAM] = 1;
        self.s_cycles16[PAGE_OAM] = 1;

        self.n_cycles32[PAGE_VRAM] = 2;
        self.s_cycles32[PAGE_VRAM] = 2;
        self.n_cycles16[PAGE_VRAM] = 1;
        self.s_cycles16[PAGE_VRAM] = 1;

        self.n_cycles32[PAGE_PALRAM] = 2;
        self.s_cycles32[PAGE_PALRAM] = 2;
        self.n_cycles16[PAGE_PALRAM] = 1;
        self.s_cycles16[PAGE_PALRAM] = 1;
    }

    /// Reprograms every gamepak entry (ROM waitstates and SRAM) from the
    /// given wait-control word; entries of other pages keep their values.
    pub fn update_gamepak_waitstates(&mut self, waitcnt: WaitControl)
        ensures
            spec_gamepak_entries(*final(self), waitcnt),
            forall|p: int| 0 <= p < PAGE_GAMEPAK_WS0 ==> #[trigger] final(self).n_cycles16@[p]
                == old(self).n_cycles16@[p],
            forall|p: int| 0 <= p < PAGE_GAMEPAK_WS0 ==> #[trigger] final(self).s_cycles16@[p]
                == old(self).s_cycles16@[p],
            forall|p: int| 0 <= p < PAGE_GAMEPAK_WS0 ==> #[trigger] final(self).n_cycles32@[p]
                == old(self).n_cycles32@[p],
            forall|p: int| 0 <= p < PAGE_GAMEPAK_WS0 ==> #[trigger] final(self).s_cycles32@[p]
                == old(self).s_cycles32@[p],
    {
        let sram_wait_cycles: usize = 1 + nonseq_cycles(waitcnt.sram_wait_control());
        self.n_cycles16[PAGE_SRAM_LO] = sram_wait_cycles;
        self.n_cycles16[PAGE_SRAM_HI] = sram_wait_cycles;
        self.s_cycles16[PAGE_SRAM_LO] = sram_wait_cycles;
        self.s_cycles16[PAGE_SRAM_HI] = sram_wait_cycles;
        self.n_cycles32[PAGE_SRAM_LO] = sram_wait_cycles;
        self.n_cycles32[PAGE_SRAM_HI] = sram_wait_cycles;
        self.s_cycles32[PAGE_SRAM_LO] = sram_wait_cycles;
        self.s_cycles32[PAGE_SRAM_HI] = sram_wait_cycles;

        let ws0_n: usize = 1 + nonseq_cycles(waitcnt.ws0_first_access());
        let ws0_s: usize = 1 + ws0_seq_cycles(waitcnt.ws0_second_access());
        let ws1_n: usize = 1 + nonseq_cycles(waitcnt.ws1_first_access());
        let ws1_s: usize = 1 + ws1_seq_cycles(waitcnt.ws1_second_access());
        let ws2_n: usize = 1 + nonseq_cycles(waitcnt.ws2_first_access());
        let ws2_s: usize = 1 + ws2_seq_cycles(waitcnt.ws2_second_access());

        self.n_cycles16[PAGE_GAMEPAK_WS0] = ws0_n;
        self.n_cycles16[PAGE_GAMEPAK_WS0 + 1] = ws0_n;
        self.s_cycles16[PAGE_GAMEPAK_WS0] = ws0_s;
        self.s_cycles16[PAGE_GAMEPAK_WS0 + 1] = ws0_s;
        self.n_cycles16[PAGE_GAMEPAK_WS1] = ws1_n;
        self.n_cycles16[PAGE_GAMEPAK_WS1 + 1] = ws1_n;
        self.s_cycles16[PAGE_GAMEPAK_WS1] = ws1_s;
        self.s_cycles16[PAGE_GAMEPAK_WS1 + 1] = ws1_s;
        self.n_cycles16[PAGE_GAMEPAK_WS2] = ws2_n;
        self.n_cycles16[PAGE_GAMEPAK_WS2 + 1] = ws2_n;
        self.s_cycles16[PAGE_GAMEPAK_WS2] = ws2_s;
        self.s_cycles16[PAGE_GAMEPAK_WS2 + 1] = ws2_s;

        self.n_cycles32[PAGE_GAMEPAK_WS0] = ws0_n + ws0_s;
        self.n_cycles32[PAGE_GAMEPAK_WS0 + 1] = ws0_n + ws0_s;
        self.n_cycles32[PAGE_GAMEPAK_WS1] = ws1_n + ws1_s;
        self.n_cycles32[PAGE_GAMEPAK_WS1 + 1] = ws1_n + ws1_s;
        self.n_cycles32[PAGE_GAMEPAK_WS2] = ws2_n + ws2_s;
        self.n_cycles32[PAGE_GAMEPAK_WS2 + 1] = ws2_n + ws2_s;

        self.s_cycles32[PAGE_GAMEPAK_WS0] = 2 * ws0_s;
        self.s_cycles32[PAGE_GAMEPAK_WS0 + 1] = 2 * ws0_s;
        self.s_cycles32[PAGE_GAMEPAK_WS1] = 2 * ws1_s;
        self.s_cycles32[PAGE_GAMEPAK_WS1 + 1] = 2 * ws1_s;
        self.s_cycles32[PAGE_GAMEPAK_WS2] = 2 * ws2_s;
        self.s_cycles32[PAGE_GAMEPAK_WS2 + 1] = 2 * ws2_s;
    }
}

/// Programming the gamepak timings twice with the same wait-control word
/// leaves the tables exactly as one programming does: the programmed entries
/// depend on the word alone, and the rest are untouched.
pub proof fn lemma_waitstate_update_idempotent(
    t1: CycleLookupTables,
    t2: CycleLookupTables,
    w: WaitControl,
)
    requires
        spec_gamepak_entries(t1, w),
        spec_gamepak_entries(t2, w),
        forall|p: int| 0 <= p < PAGE_GAMEPAK_WS0 ==> #[trigger] t2.n_cycles16@[p]
            == t1.n_cycles16@[p],
        forall|p: int| 0 <= p < PAGE_GAMEPAK_WS0 ==> #[trigger] t2.s_cycles16@[p]
            == t1.s_cycles16@[p],
        forall|p: int| 0 <= p < PAGE_GAMEPAK_WS0 ==> #[trigger] t2.n_cycles32@[p]
            == t1.n_cycles32@[p],
        forall|p: int| 0 <= p < PAGE_GAMEPAK_WS0 ==> #[trigger] t2.s_cycles32@[p]
            == t1.s_cycles32@[p],
    ensures
        t2 =~= t1,
{
    assert(t2.n_cycles16@ =~= t1.n_cycles16@);
    assert(t2.s_cycles16@ =~= t1.s_cycles16@);
    assert(t2.n_cycles32@ =~= t1.n_cycles32@);
    assert(t2.s_cycles32@ =~= t1.s_cycles32@);
}

/// For the ROM waitstate pages, a 32-bit access decomposes into the two
/// 16-bit halves: the non-sequential cost is one non-sequential plus one
/// sequential 16-bit access, and the sequential cost is two sequential ones.
pub proof fn lemma_rom_cycle_table_consistency(t: CycleLookupTables, w: WaitControl, p: int)
    requires
        spec_gamepak_entries(t, w),
        PAGE_GAMEPAK_WS0 <= p < PAGE_SRAM_LO,
    ensures
        t.n_cycles32@[p] == t.n_cycles16@[p] + t.s_cycles16@[p],
        t.s_cycles32@[p] == 2 * t.s_cycles16@[p],
{
}

} // verus!

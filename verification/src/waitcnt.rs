//! The WAITCNT register: the guest-programmable wait-state control word.
//!
//! The register is a 16-bit value whose fields select the gamepak bus
//! timings: a 2-bit SRAM wait selector, per-waitstate 2-bit first-access
//! selectors, per-waitstate 1-bit second-access selectors, the PHI terminal
//! output, the prefetch enable and the gamepak type bit.

use vstd::prelude::*;

verus! {

/// Structured view of the 16-bit wait-control register.
#[derive(Clone, Copy, Debug, PartialEq, Eq, Structural)]
pub struct WaitControl {
    pub raw: u16,
}

impl WaitControl {
    pub closed spec fn spec_sram_wait_control(self) -> u16 {
        self.raw & 0x3
    }

    pub closed spec fn spec_ws0_first_access(self) -> u16 {
        (self.raw >> 2) & 0x3
    }

    pub closed spec fn spec_ws0_second_access(self) -> u16 {
        (self.raw >> 4) & 0x1
    }

    pub closed spec fn spec_ws1_first_access(self) -> u16 {
        (self.raw >> 5) & 0x3
    }

    pub closed spec fn spec_ws1_second_access(self) -> u16 {
        (self.raw >> 7) & 0x1
    }

    pub closed spec fn spec_ws2_first_access(self) -> u16 {
        (self.raw >> 8) & 0x3
    }

    pub closed spec fn spec_ws2_second_access(self) -> u16 {
        (self.raw >> 10) & 0x1
    }

    pub closed spec fn spec_phi_terminal_output(self) -> u16 {
        (self.raw >> 11) & 0x3
    }

    pub closed spec fn spec_prefetch_enabled(self) -> bool {
        (self.raw >> 14) & 0x1 == 1
    }

    pub closed spec fn spec_gamepak_type(self) -> bool {
        (self.raw >> 15) & 0x1 == 1
    }

    pub fn new(raw: u16) -> (r: WaitControl)
        ensures
            r.raw == raw,
    {
        WaitControl { raw }
    }

    /// 2-bit selector of the SRAM non-sequential wait count.
    pub fn sram_wait_control(self) -> (r: u16)
        ensures
            r == self.spec_sram_wait_control(),
            r < 4,
    {
        proof {
            let raw = self.raw;
            assert(raw & 0x3 < 4) by (bit_vector);
        }
        self.raw & 0x3
    }

    /// 2-bit selector of the WS0 first-access wait count.
    pub fn ws0_first_access(self) -> (r: u16)
        ensures
            r == self.spec_ws0_first_access(),
            r < 4,
    {
        proof {
            let raw = self.raw;
            assert((raw >> 2) & 0x3 < 4) by (bit_vector);
        }
        (self.raw >> 2) & 0x3
    }

    /// 1-bit selector of the WS0 second-access wait count.
    pub fn ws0_second_access(self) -> (r: u16)
        ensures
            r == self.spec_ws0_second_access(),
            r < 2,
    {
        proof {
            let raw = self.raw;
            assert((raw >> 4) & 0x1 < 2) by (bit_vector);
        }
        (self.raw >> 4) & 0x1
    }

    /// 2-bit selector of the WS1 first-access wait count.
    pub fn ws1_first_access(self) -> (r: u16)
        ensures
            r == self.spec_ws1_first_access(),
            r < 4,
    {
        proof {
            let raw = self.raw;
            assert((raw >> 5) & 0x3 < 4) by (bit_vector);
        }
        (self.raw >> 5) & 0x3
    }

    /// 1-bit selector of the WS1 second-access wait count.
    pub fn ws1_second_access(self) -> (r: u16)
        ensures
            r == self.spec_ws1_second_access(),
            r < 2,
    {
        proof {
            let raw = self.raw;
            assert((raw >> 7) & 0x1 < 2) by (bit_vector);
        }
        (self.raw >> 7) & 0x1
    }

    /// 2-bit selector of the WS2 first-access wait count.
    pub fn ws2_first_access(self) -> (r: u16)
        ensures
            r == self.spec_ws2_first_access(),
            r < 4,
    {
        proof {
            let raw = self.raw;
            assert((raw >> 8) & 0x3 < 4) by (bit_vector);
        }
        (self.raw >> 8) & 0x3
    }

    /// 1-bit selector of the WS2 second-access wait count.
    pub fn ws2_second_access(self) -> (r: u16)
        ensures
            r == self.spec_ws2_second_access(),
            r < 2,
    {
        proof {
            let raw = self.raw;
            assert((raw >> 10) & 0x1 < 2) by (bit_vector);
        }
        (self.raw >> 10) & 0x1
    }
}

} // verus!

//! The 192-byte cartridge header: game title, game code, maker code and
//! the header checksum.

use vstd::prelude::*;

verus! {

/// Why a cartridge could not be built.
#[derive(Clone, Copy, Debug, PartialEq, Eq, Structural)]
pub enum LoadError {
    /// The ROM image is too short to carry a header, or over the 32 MiB
    /// address window.
    InvalidHeader,
    /// The save image's length does not fit the backup type in force.
    BackupConflict,
}

pub const HEADER_SIZE: usize = 192;

pub const TITLE_OFFSET: usize = 0xA0;

pub const TITLE_LEN: usize = 12;

pub const GAME_CODE_OFFSET: usize = 0xAC;

pub const GAME_CODE_LEN: usize = 4;

pub const MAKER_CODE_OFFSET: usize = 0xB0;

pub const MAKER_CODE_LEN: usize = 2;

pub const CHECKSUM_OFFSET: usize = 0xBD;

/// Sum of the ROM bytes in `[lo, hi)`.
pub open spec fn spec_byte_sum(rom: Seq<u8>, lo: int, hi: int) -> int
    decreases hi - lo,
{
    if lo >= hi {
        0
    } else {
        rom[lo] + spec_byte_sum(rom, lo + 1, hi)
    }
}

/// The header checksum: the sum over bytes `0xA0..0xBD` of `-1 - byte`,
/// masked to 8 bits.
pub open spec fn spec_header_checksum(rom: Seq<u8>) -> u8 {
    ((-(29 + spec_byte_sum(rom, TITLE_OFFSET as int, CHECKSUM_OFFSET as int))) % 256) as u8
}

/// The parsed fields of a cartridge header.
#[derive(Clone, Debug)]
pub struct CartridgeHeader {
    /// 12 ASCII bytes of game title.
    pub game_title: Vec<u8>,
    /// 4 ASCII bytes of game code.
    pub game_code: Vec<u8>,
    /// 2 ASCII bytes of maker code.
    pub maker_code: Vec<u8>,
    /// The checksum byte the ROM carries.
    pub checksum: u8,
}

impl CartridgeHeader {
    pub open spec fn parsed_from(self, rom: Seq<u8>) -> bool {
        &&& self.game_title@ == rom.subrange(
            TITLE_OFFSET as int,
            TITLE_OFFSET + TITLE_LEN as int,
        )
        &&& self.game_code@ == rom.subrange(
            GAME_CODE_OFFSET as int,
            GAME_CODE_OFFSET + GAME_CODE_LEN as int,
        )
        &&& self.maker_code@ == rom.subrange(
            MAKER_CODE_OFFSET as int,
            MAKER_CODE_OFFSET + MAKER_CODE_LEN as int,
        )
        &&& self.checksum == rom[CHECKSUM_OFFSET as int]
    }

    /// Parses the header fields out of a ROM image; an image too short to
    /// hold the 192-byte header is rejected.
    pub fn parse(rom: &Vec<u8>) -> (r: Result<CartridgeHeader, LoadError>)
        ensures
            rom@.len() >= HEADER_SIZE ==> (r matches Ok(h) && h.parsed_from(rom@)),
            rom@.len() < HEADER_SIZE ==> r == Result::<CartridgeHeader, LoadError>::Err(
                LoadError::InvalidHeader,
            ),
    {
        if rom.len() < HEADER_SIZE {
            return Err(LoadError::InvalidHeader);
        }
        let game_title = copy_range(rom, TITLE_OFFSET, TITLE_LEN);
        let game_code = copy_range(rom, GAME_CODE_OFFSET, GAME_CODE_LEN);
        let maker_code = copy_range(rom, MAKER_CODE_OFFSET, MAKER_CODE_LEN);
        let checksum = rom[CHECKSUM_OFFSET];
        Ok(CartridgeHeader { game_title, game_code, maker_code, checksum })
    }

    /// Whether the carried checksum byte matches the one the header bytes
    /// imply.
    pub fn checksum_ok(&self, rom: &Vec<u8>) -> (r: bool)
        requires
            rom@.len() >= HEADER_SIZE,
        ensures
            r == (self.checksum == spec_header_checksum(rom@)),
    {
        self.checksum == compute_checksum(rom)
    }
}

fn copy_range(rom: &Vec<u8>, start: usize, len: usize) -> (r: Vec<u8>)
    requires
        start + len <= rom@.len(),
    ensures
        r@ == rom@.subrange(start as int, start + len as int),
{
    let n: usize = rom.len();
    let mut out: Vec<u8> = Vec::new();
    let mut i: usize = 0;
    while i < len
        invariant
            i <= len,
            start + len <= rom@.len(),
            rom@.len() == n,
            out@ =~= rom@.subrange(start as int, start + i as int),
        decreases len - i,
    {
        out.push(rom[start + i]);
        i = i + 1;
    }
    proof {
        assert(out@ =~= rom@.subrange(start as int, start + len as int));
    }
    out
}

/// Computes the checksum the header bytes imply.
pub fn compute_checksum(rom: &Vec<u8>) -> (r: u8)
    requires
        rom@.len() >= HEADER_SIZE,
    ensures
        r == spec_header_checksum(rom@),
{
    let mut total: u32 = 0;
    let mut i: usize = TITLE_OFFSET;
    while i < CHECKSUM_OFFSET
        invariant
            TITLE_OFFSET <= i <= CHECKSUM_OFFSET,
            rom@.len() >= HEADER_SIZE,
            total == spec_byte_sum(rom@, TITLE_OFFSET as int, i as int),
            total <= 255 * (i - TITLE_OFFSET),
        decreases CHECKSUM_OFFSET - i,
    {
        proof {
            lemma_byte_sum_snoc(rom@, TITLE_OFFSET as int, i as int);
        }
        total = total + rom[i] as u32;
        i = i + 1;
    }
    let reduced: u32 = (total + 29) % 256;
    let r: u8 = ((256 - reduced) % 256) as u8;
    proof {
        let s = spec_byte_sum(rom@, TITLE_OFFSET as int, CHECKSUM_OFFSET as int);
        assert(r == ((-(29 + s)) % 256) as u8) by (nonlinear_arith)
            requires
                total == s,
                0 <= s,
                reduced == (total + 29) % 256,
                r == ((256 - reduced) % 256) as u8,
        ;
    }
    r
}

/// Appending one byte to a summed range adds that byte.
proof fn lemma_byte_sum_snoc(rom: Seq<u8>, lo: int, hi: int)
    requires
        lo <= hi,
    ensures
        spec_byte_sum(rom, lo, hi + 1) == spec_byte_sum(rom, lo, hi) + rom[hi],
    decreases hi - lo,
{
    if lo == hi {
        assert(spec_byte_sum(rom, lo, hi) == 0);
        assert(spec_byte_sum(rom, hi + 1, hi + 1) == 0);
        assert(spec_byte_sum(rom, lo, hi + 1) == rom[hi] + spec_byte_sum(rom, hi + 1, hi + 1));
    } else {
        lemma_byte_sum_snoc(rom, lo + 1, hi);
        assert(spec_byte_sum(rom, lo, hi + 1) == rom[lo] + spec_byte_sum(rom, lo + 1, hi + 1));
        assert(spec_byte_sum(rom, lo, hi) == rom[lo] + spec_byte_sum(rom, lo + 1, hi));
    }
}

} // verus!

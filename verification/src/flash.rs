//! Interface to the FLASH peripheral
//!
//! This manages access to both the program flash memory, as well as EEPROM.
//!
//! References:
//!
//! - STM32L0x1 reference manual (RM0377), chapter 3
//! - STM32L0x2 reference manual (RM0376), chapter 3
//! - STM32L0x3 reference manual (RM0367), chapter 3
use vstd::prelude::*;

use crate::bits::bit_set;

verus! {

/// The first address of flash memory
pub const FLASH_START: usize = 0x0800_0000;

/// The size of a Flash memory page, in bytes
pub const PAGE_SIZE: usize = 128;

/// EEPROM size in bytes (category 5 devices)
pub const EEPROM_SIZE: usize = 6144;

/// EEPROM start addresses
pub const EEPROM_START_BANK1: usize = 0x0808_0000;

pub const EEPROM_START_BANK2: usize = 0x0808_0C00;

/// `PECR` bit that selects program memory operations (`PROG`).
pub const PECR_PROG: u32 = 3;

/// `PECR` bit that selects erase operations (`ERASE`).
pub const PECR_ERASE: u32 = 9;

/// `PECR` bit that selects half-page programming (`FPRG`).
pub const PECR_FPRG: u32 = 10;

/// Keys that unlock `PECR` (written to `PEKEYR`, in this order).
pub const PEKEY1: u32 = 0x89AB_CDEF;

pub const PEKEY2: u32 = 0x0203_0405;

/// Keys that unlock program memory (written to `PRGKEYR`, in this order).
pub const PRGKEY1: u32 = 0x8C9D_AEBF;

pub const PRGKEY2: u32 = 0x1314_1516;

/// Keys that unlock the option bytes (written to `OPTKEYR`, in this order).
pub const OPTKEY1: u32 = 0xFBEA_D9C8;

pub const OPTKEY2: u32 = 0x2425_2627;

/// The reset value of `PECR`, written after each operation: operations
/// reset and everything locked again.
pub const PECR_RESET: u32 = 0x07;

/// `SR` error flags
pub const SR_WRPERR: u32 = 8;

pub const SR_PGAERR: u32 = 9;

pub const SR_SIZERR: u32 = 10;

pub const SR_OPTVERR: u32 = 11;

pub const SR_RDERR: u32 = 14;

pub const SR_NOTZEROERR: u32 = 16;

pub const SR_FWWERR: u32 = 17;

/// Flash wait states (`LATENCY`)
#[derive(Debug, Clone, Copy, PartialEq, Eq, Structural)]
pub enum Latency {
    /// Zero wait states
    WS0,
    /// One wait state
    WS1,
}

/// The kind of memory an address points to
#[derive(Debug, Copy, Clone, PartialEq, Eq, Structural)]
pub enum Memory {
    Flash,
    Eeprom,
    Other,
}

impl Memory {
    pub fn is_flash(&self) -> (r: bool)
        ensures
            r == (*self == Memory::Flash),
    {
        matches!(self, Memory::Flash)
    }

    pub fn is_eeprom(&self) -> (r: bool)
        ensures
            r == (*self == Memory::Eeprom),
    {
        matches!(self, Memory::Eeprom)
    }

    pub fn is_other(&self) -> (r: bool)
        ensures
            r == (*self == Memory::Other),
    {
        matches!(self, Memory::Other)
    }
}

/// Bit of `LATENCY` (one wait state) in `ACR`.
pub const ACR_LATENCY: u32 = 0;

/// One step of an operation on the non-volatile memories, in the order a
/// driver makes them.
#[derive(Debug, Clone, Copy, PartialEq, Eq)]
pub enum FlashOp {
    /// Write this key to `PEKEYR`.
    PeKey(u32),
    /// Write this key to `PRGKEYR`.
    PrgKey(u32),
    /// Write this key to `OPTKEYR`.
    OptKey(u32),
    /// Wait while the memory interface is busy (`SR.BSY`).
    WaitIdle,
    /// Set these bits of `PECR`, keeping the others (read-modify-write).
    PecrSet(u32),
    /// Write this value to `PECR`.
    Pecr(u32),
    /// Write this word to this address.
    WriteWord(usize, u32),
    /// Write this byte to this address.
    WriteByte(usize, u8),
    /// Write these sixteen words as a half-page to this address, with no
    /// access to flash memory while it is prepared (from RAM, with
    /// interrupts disabled).
    WriteHalfPage(usize, [u32; 16]),
    /// Read `SR` and check it for errors (`FLASH::check_errors`), clearing
    /// the flag of the error reported; that is the operation's result.
    CheckErrors,
}

/// The sixteen words of a half-page as an array: the array whose elements
/// are `words`, of which there must be sixteen.
pub open spec fn half_page(words: Seq<u32>) -> [u32; 16] {
    choose|a: [u32; 16]| a@ == words
}

/// `ops` with the memories unlocked before (two keys each to `PEKEYR`,
/// `PRGKEYR` and `OPTKEYR`) and `PECR` reset after, which locks them again.
pub open spec fn unlocked(ops: Seq<FlashOp>) -> Seq<FlashOp> {
    seq![
        FlashOp::PeKey(PEKEY1),
        FlashOp::PeKey(PEKEY2),
        FlashOp::PrgKey(PRGKEY1),
        FlashOp::PrgKey(PRGKEY2),
        FlashOp::OptKey(OPTKEY1),
        FlashOp::OptKey(OPTKEY2),
    ] + ops + seq![FlashOp::Pecr(PECR_RESET)]
}

/// The steps of one memory operation `op` between two waits for an idle
/// memory interface, after `setup`, checked for errors after it; all with
/// the memories unlocked.
pub open spec fn operation(setup: Seq<FlashOp>, op: FlashOp) -> Seq<FlashOp> {
    unlocked(seq![FlashOp::WaitIdle] + setup + seq![op, FlashOp::WaitIdle, FlashOp::CheckErrors])
}

/// The steps of [`operation`].
fn operation_steps(setup: Option<FlashOp>, op: FlashOp) -> (r: Vec<FlashOp>)
    ensures
        r@ == operation(
            match setup {
                Some(s) => seq![s],
                None => Seq::<FlashOp>::empty(),
            },
            op,
        ),
{
    let mut r: Vec<FlashOp> = Vec::new();
    r.push(FlashOp::PeKey(PEKEY1));
    r.push(FlashOp::PeKey(PEKEY2));
    r.push(FlashOp::PrgKey(PRGKEY1));
    r.push(FlashOp::PrgKey(PRGKEY2));
    r.push(FlashOp::OptKey(OPTKEY1));
    r.push(FlashOp::OptKey(OPTKEY2));
    r.push(FlashOp::WaitIdle);
    match setup {
        Some(s) => {
            r.push(s);
        },
        None => {},
    }
    r.push(op);
    r.push(FlashOp::WaitIdle);
    r.push(FlashOp::CheckErrors);
    r.push(FlashOp::Pecr(PECR_RESET));
    proof {
        let setup_seq = match setup {
            Some(s) => seq![s],
            None => Seq::<FlashOp>::empty(),
        };
        assert(r@ =~= operation(setup_seq, op));
    }
    r
}

#[derive(Debug, Clone, Copy, PartialEq, Eq, Structural)]
pub enum Error {
    /// Write/erase was aborted by fetch operation
    ///
    /// See FWWERR bit in SR register.
    AbortedByFetch,
    /// Failed to write memory that was not erased
    ///
    /// See NOTZEROERR bit in SR register.
    NotErased,
    /// Attempted to read protected memory
    ///
    /// See RDERR bit in SR register.
    ReadProtection,
    /// Configuration mismatch
    ///
    /// See OPTVERR bit in SR register.
    ConfigMismatch,
    /// Size of data to program is not correct
    ///
    /// See SIZERR bit in SR register.
    InvalidSize,
    /// Incorrect alignment when programming half-page
    ///
    /// See PGAERR bit in SR register.
    InvalidAlignment,
    /// Attempted to write to protected memory
    ///
    /// See WRPERR in SR register.
    WriteProtection,
}

impl Error {
    /// The status register bit that flags this error.
    pub open spec fn spec_flag(self) -> u32 {
        match self {
            Error::AbortedByFetch => SR_FWWERR,
            Error::NotErased => SR_NOTZEROERR,
            Error::ReadProtection => SR_RDERR,
            Error::ConfigMismatch => SR_OPTVERR,
            Error::InvalidSize => SR_SIZERR,
            Error::InvalidAlignment => SR_PGAERR,
            Error::WriteProtection => SR_WRPERR,
        }
    }

    /// The status register value that, written back, clears the flag of
    /// this error.
    pub fn clear_flag(&self) -> (r: u32)
        ensures
            r == 1u32 << self.spec_flag(),
    {
        let bit = match self {
            Error::AbortedByFetch => SR_FWWERR,
            Error::NotErased => SR_NOTZEROERR,
            Error::ReadProtection => SR_RDERR,
            Error::ConfigMismatch => SR_OPTVERR,
            Error::InvalidSize => SR_SIZERR,
            Error::InvalidAlignment => SR_PGAERR,
            Error::WriteProtection => SR_WRPERR,
        };
        1u32 << bit
    }
}

/// The error that the status register `sr` reports: the first error, in the
/// order of the variants of `Error`, whose flag is set.
pub open spec fn reported_error(sr: u32) -> Option<Error> {
    if bit_set(sr, SR_FWWERR) {
        Some(Error::AbortedByFetch)
    } else if bit_set(sr, SR_NOTZEROERR) {
        Some(Error::NotErased)
    } else if bit_set(sr, SR_RDERR) {
        Some(Error::ReadProtection)
    } else if bit_set(sr, SR_OPTVERR) {
        Some(Error::ConfigMismatch)
    } else if bit_set(sr, SR_SIZERR) {
        Some(Error::InvalidSize)
    } else if bit_set(sr, SR_PGAERR) {
        Some(Error::InvalidAlignment)
    } else if bit_set(sr, SR_WRPERR) {
        Some(Error::WriteProtection)
    } else {
        None
    }
}

/// Entry point to the non-volatile memory (NVM) API: the memory layout
/// and the configured wait states.
pub struct FLASH {
    flash_end: usize,
    eeprom_start: usize,
    eeprom_end: usize,
    latency: Latency,
}

impl FLASH {
    /// The first address after flash memory.
    pub closed spec fn spec_flash_end(&self) -> usize {
        self.flash_end
    }

    /// The first address of EEPROM.
    pub closed spec fn spec_eeprom_start(&self) -> usize {
        self.eeprom_start
    }

    /// The first address after EEPROM.
    pub closed spec fn spec_eeprom_end(&self) -> usize {
        self.eeprom_end
    }

    /// The configured wait states.
    pub closed spec fn spec_latency(&self) -> Latency {
        self.latency
    }

    /// The configured wait states, to write to the `LATENCY` bit of `ACR`
    /// (set for one wait state).
    pub fn latency(&self) -> (r: bool)
        ensures
            r == (self.spec_latency() == Latency::WS1),
    {
        match self.latency {
            Latency::WS0 => false,
            Latency::WS1 => true,
        }
    }

    /// The kind of memory `address` points to.
    pub open spec fn spec_memory(&self, address: usize) -> Memory {
        if FLASH_START <= address && address < self.spec_flash_end() {
            Memory::Flash
        } else if self.spec_eeprom_start() <= address && address < self.spec_eeprom_end() {
            Memory::Eeprom
        } else {
            Memory::Other
        }
    }

    /// Initializes the FLASH API for a device with `flash_size_in_kb` KiB
    /// of flash memory (the value of the flash size register).
    ///
    /// Most MCUs have two EEPROM banks, but some have only one bank (BANK2):
    /// those with 64 KiB of flash memory and 3 KiB of EEPROM.
    pub fn new(flash_size_in_kb: usize) -> (r: Self)
        requires
            flash_size_in_kb <= 0x40000,
        ensures
            r.spec_flash_end() == FLASH_START + flash_size_in_kb * 1024,
            r.spec_eeprom_start() == (if flash_size_in_kb == 64 && EEPROM_SIZE == 3072 {
                EEPROM_START_BANK2
            } else {
                EEPROM_START_BANK1
            }),
            r.spec_eeprom_end() == r.spec_eeprom_start() + EEPROM_SIZE,
            r.spec_latency() == Latency::WS0,
    {
        let flash_end = FLASH_START + flash_size_in_kb * 1024;
        let eeprom_start = if flash_size_in_kb == 64 && EEPROM_SIZE == 3072 {
            EEPROM_START_BANK2
        } else {
            EEPROM_START_BANK1
        };
        let eeprom_end = eeprom_start + EEPROM_SIZE;
        Self { flash_end, eeprom_start, eeprom_end, latency: Latency::WS0 }
    }

    /// The key values that unlock the memories before an operation, in the
    /// order written: two to `PEKEYR`, two to `PRGKEYR`, two to `OPTKEYR`.
    /// After the operation, [`PECR_RESET`] is written to `PECR`.
    pub fn unlock(&self) -> (r: [u32; 6])
        ensures
            r@ == seq![PEKEY1, PEKEY2, PRGKEY1, PRGKEY2, OPTKEY1, OPTKEY2],
    {
        let r = [PEKEY1, PEKEY2, PRGKEY1, PRGKEY2, OPTKEY1, OPTKEY2];
        assert(r@ =~= seq![PEKEY1, PEKEY2, PRGKEY1, PRGKEY2, OPTKEY1, OPTKEY2]);
        r
    }

    /// Set wait states
    ///
    /// By default, the number of wait states is zero. This is not suitable for
    /// all configurations. Depending on the processor's voltage range and
    /// frequency, it might be necessary to set the number of wait states to 1.
    ///
    /// Returns the `ACR` value to write, from its value `acr`: the `LATENCY`
    /// bit set for one wait state, cleared for none.
    pub fn set_wait_states(&mut self, wait_states: Latency, acr: u32) -> (r: u32)
        ensures
            r == crate::bits::with_field(acr, ACR_LATENCY, 1, if wait_states == Latency::WS1 { 1u32 } else { 0u32 }),
            final(self).spec_latency() == wait_states,
            final(self).spec_flash_end() == old(self).spec_flash_end(),
            final(self).spec_eeprom_start() == old(self).spec_eeprom_start(),
            final(self).spec_eeprom_end() == old(self).spec_eeprom_end(),
    {
        self.latency = wait_states;
        proof {
            crate::bits::lemma_low_masks();
        }
        let bit: u32 = match wait_states {
            Latency::WS0 => 0,
            Latency::WS1 => 1,
        };
        crate::bits::write_field(acr, ACR_LATENCY, 1, bit)
    }

    /// Whether `address` points to flash memory or EEPROM.
    pub fn is_nvm_address(&self, address: usize) -> (r: bool)
        ensures
            r == (self.spec_memory(address) != Memory::Other),
    {
        (FLASH_START <= address && address < self.flash_end) || (self.eeprom_start <= address
            && address < self.eeprom_end)
    }

    /// The kind of memory `address` points to, which must be flash memory
    /// or EEPROM (see [`FLASH::is_nvm_address`]).
    pub fn verify_address(&self, address: usize) -> (r: Memory)
        requires
            self.spec_memory(address) != Memory::Other,
        ensures
            r == self.spec_memory(address),
            r != Memory::Other,
    {
        if FLASH_START <= address && address < self.flash_end {
            Memory::Flash
        } else {
            Memory::Eeprom
        }
    }

    /// The steps that erase the flash page at `address` (see [`operation`]):
    /// `ERASE` and `PROG` set in `PECR`, then a zero word written to the
    /// page; the result is that of the error check after it.
    ///
    /// `address` must point to flash memory and be aligned to a page
    /// boundary (32 words, 128 bytes).
    pub fn erase_flash_page(&self, address: usize) -> (r: Vec<FlashOp>)
        requires
            self.spec_memory(address) == Memory::Flash,
            address % 128 == 0,
        ensures
            r@ == operation(
                seq![FlashOp::PecrSet((1u32 << PECR_ERASE) | (1u32 << PECR_PROG))],
                FlashOp::WriteWord(address, 0),
            ),
    {
        operation_steps(
            Some(FlashOp::PecrSet((1u32 << PECR_ERASE) | (1u32 << PECR_PROG))),
            FlashOp::WriteWord(address, 0),
        )
    }

    /// The steps that write `word` to `address`, in flash memory or EEPROM
    /// (see [`operation`]); the result is that of the error check after it.
    pub fn write_word(&self, address: usize, word: u32) -> (r: Vec<FlashOp>)
        requires
            self.spec_memory(address) != Memory::Other,
        ensures
            r@ == operation(Seq::<FlashOp>::empty(), FlashOp::WriteWord(address, word)),
    {
        operation_steps(None, FlashOp::WriteWord(address, word))
    }

    /// The steps that write `byte` to `address`, which must point to EEPROM
    /// (see [`operation`]); the result is that of the error check after it.
    pub fn write_byte(&self, address: usize, byte: u8) -> (r: Vec<FlashOp>)
        requires
            self.spec_memory(address) == Memory::Eeprom,
        ensures
            r@ == operation(Seq::<FlashOp>::empty(), FlashOp::WriteByte(address, byte)),
    {
        operation_steps(None, FlashOp::WriteByte(address, byte))
    }

    /// The steps that write a half-page (16 words) at `address` (see
    /// [`operation`]): `FPRG` and `PROG` set in `PECR`, then the words
    /// written; the result is that of the error check after it.
    ///
    /// `address` must point to flash memory and be aligned to a half-page
    /// boundary (16 words, 64 bytes), and there must be exactly 16 words.
    pub fn write_flash_half_page(&self, address: usize, words: &[u32]) -> (r: Vec<FlashOp>)
        requires
            self.spec_memory(address) == Memory::Flash,
            address % 64 == 0,
            words@.len() == 16,
        ensures
            r@ == operation(
                seq![FlashOp::PecrSet((1u32 << PECR_FPRG) | (1u32 << PECR_PROG))],
                FlashOp::WriteHalfPage(address, half_page(words@)),
            ),
    {
        let half: [u32; 16] = [
            words[0], words[1], words[2], words[3], words[4], words[5], words[6], words[7],
            words[8], words[9], words[10], words[11], words[12], words[13], words[14], words[15],
        ];
        proof {
            assert(half@ =~= words@);
            let chosen = half_page(words@);
            assert(chosen@ == words@);
            assert(chosen =~= half);
        }
        operation_steps(
            Some(FlashOp::PecrSet((1u32 << PECR_FPRG) | (1u32 << PECR_PROG))),
            FlashOp::WriteHalfPage(address, half),
        )
    }

    /// Check for errors in the status register contents `sr`: the error of
    /// the highest priority whose flag is set, whose flag is then to be
    /// cleared (see `Error::clear_flag`).
    pub fn check_errors(&self, sr: u32) -> (r: Result<(), Error>)
        ensures
            r == (match reported_error(sr) {
                Some(e) => Err(e),
                None => Ok(()),
            }),
    {
        if sr_bit(sr, SR_FWWERR) {
            return Err(Error::AbortedByFetch);
        }
        if sr_bit(sr, SR_NOTZEROERR) {
            return Err(Error::NotErased);
        }
        if sr_bit(sr, SR_RDERR) {
            return Err(Error::ReadProtection);
        }
        if sr_bit(sr, SR_OPTVERR) {
            return Err(Error::ConfigMismatch);
        }
        if sr_bit(sr, SR_SIZERR) {
            return Err(Error::InvalidSize);
        }
        if sr_bit(sr, SR_PGAERR) {
            return Err(Error::InvalidAlignment);
        }
        if sr_bit(sr, SR_WRPERR) {
            return Err(Error::WriteProtection);
        }
        Ok(())
    }
}

fn sr_bit(sr: u32, n: u32) -> (r: bool)
    requires
        n < 32,
    ensures
        r == bit_set(sr, n),
{
    crate::bits::read_field(sr, n, 1) == 1
}

/// The memory kinds partition the address space: flash memory and EEPROM
/// do not overlap on a device whose flash ends below the EEPROM.
pub proof fn lemma_memory_kinds(flash: FLASH, address: usize)
    requires
        flash.spec_flash_end() <= flash.spec_eeprom_start(),
    ensures
        flash.spec_memory(address) == Memory::Flash <==> FLASH_START <= address
            < flash.spec_flash_end(),
        flash.spec_memory(address) == Memory::Eeprom <==> flash.spec_eeprom_start() <= address
            < flash.spec_eeprom_end(),
{
}

/// An error is reported exactly when one of the error flags is set, and a
/// reported error's own flag is set.
pub proof fn lemma_error_reported(sr: u32)
    ensures
        reported_error(sr) is None <==> (!bit_set(sr, SR_FWWERR) && !bit_set(sr, SR_NOTZEROERR)
            && !bit_set(sr, SR_RDERR) && !bit_set(sr, SR_OPTVERR) && !bit_set(sr, SR_SIZERR)
            && !bit_set(sr, SR_PGAERR) && !bit_set(sr, SR_WRPERR)),
        reported_error(sr) matches Some(e) ==> bit_set(sr, e.spec_flag()),
{
}

/// The status register after the flag of error `e` is cleared: its error
/// flags are cleared by writing 1 to them (`Error::clear_flag`).
pub open spec fn sr_after_clear(sr: u32, e: Error) -> u32 {
    sr & !(1u32 << e.spec_flag())
}

/// Checking the status register again after the reported error's flag was
/// cleared reports the next error set, in the order of the checks, or none:
/// the cleared error is not reported again, and an error of a lower
/// priority still set is still reported after it. Every check clears one
/// flag, so after at most seven checks no error is left.
pub proof fn lemma_check_after_clear(sr: u32, e: Error)
    requires
        reported_error(sr) == Some(e),
    ensures
        !bit_set(sr_after_clear(sr, e), e.spec_flag()),
        reported_error(sr_after_clear(sr, e)) != Some(e),
        forall|n: u32| n < 32 && n != e.spec_flag() ==> #[trigger] bit_set(sr_after_clear(sr, e), n) == bit_set(sr, n),
{
    let f = e.spec_flag();
    crate::bits::lemma_low_masks();
    assert(f < 32);
    assert(((sr & !(1u32 << f)) >> f) & 1u32 == 0) by (bit_vector)
        requires
            f < 32,
    ;
    assert forall|n: u32| n < 32 && n != f implies #[trigger] bit_set(sr_after_clear(sr, e), n) == bit_set(sr, n) by {
        assert(((sr & !(1u32 << f)) >> n) & 1u32 == (sr >> n) & 1u32) by (bit_vector)
            requires
                f < 32,
                n < 32,
                n != f,
        ;
    }
    let s2 = sr_after_clear(sr, e);
    lemma_error_reported(s2);
}

/// The position of error `e` in the order in which the status register is
/// checked (see [`reported_error`]): 0 is checked first.
pub open spec fn spec_priority(e: Error) -> int {
    match e {
        Error::AbortedByFetch => 0,
        Error::NotErased => 1,
        Error::ReadProtection => 2,
        Error::ConfigMismatch => 3,
        Error::InvalidSize => 4,
        Error::InvalidAlignment => 5,
        Error::WriteProtection => 6,
    }
}

/// The number of error flags set in the status register `sr`.
pub open spec fn error_count(sr: u32) -> nat {
    (if bit_set(sr, SR_FWWERR) { 1nat } else { 0nat }) + (if bit_set(sr, SR_NOTZEROERR) {
        1nat
    } else {
        0nat
    }) + (if bit_set(sr, SR_RDERR) { 1nat } else { 0nat }) + (if bit_set(sr, SR_OPTVERR) {
        1nat
    } else {
        0nat
    }) + (if bit_set(sr, SR_SIZERR) { 1nat } else { 0nat }) + (if bit_set(sr, SR_PGAERR) {
        1nat
    } else {
        0nat
    }) + (if bit_set(sr, SR_WRPERR) { 1nat } else { 0nat })
}

/// Clearing the flag of the reported error leaves one error flag fewer.
pub proof fn lemma_clear_counts_down(sr: u32, e: Error)
    requires
        reported_error(sr) == Some(e),
    ensures
        error_count(sr_after_clear(sr, e)) + 1 == error_count(sr),
{
    lemma_check_after_clear(sr, e);
    lemma_error_reported(sr);
    let s2 = sr_after_clear(sr, e);
    assert(bit_set(s2, SR_FWWERR) == (bit_set(sr, SR_FWWERR) && e.spec_flag() != SR_FWWERR));
    assert(bit_set(s2, SR_NOTZEROERR) == (bit_set(sr, SR_NOTZEROERR) && e.spec_flag() != SR_NOTZEROERR));
    assert(bit_set(s2, SR_RDERR) == (bit_set(sr, SR_RDERR) && e.spec_flag() != SR_RDERR));
    assert(bit_set(s2, SR_OPTVERR) == (bit_set(sr, SR_OPTVERR) && e.spec_flag() != SR_OPTVERR));
    assert(bit_set(s2, SR_SIZERR) == (bit_set(sr, SR_SIZERR) && e.spec_flag() != SR_SIZERR));
    assert(bit_set(s2, SR_PGAERR) == (bit_set(sr, SR_PGAERR) && e.spec_flag() != SR_PGAERR));
    assert(bit_set(s2, SR_WRPERR) == (bit_set(sr, SR_WRPERR) && e.spec_flag() != SR_WRPERR));
}

/// The errors that checking the status register `sr` over and over reports,
/// in order, when the flag of each reported error is cleared before the
/// next check; the check after the last of them finds no error.
pub open spec fn pending_errors(sr: u32) -> Seq<Error>
    decreases error_count(sr),
{
    match reported_error(sr) {
        Some(e) => {
            proof {
                lemma_clear_counts_down(sr, e);
            }
            seq![e] + pending_errors(sr_after_clear(sr, e))
        },
        None => seq![],
    }
}

/// The status register after the flags of all the errors that
/// [`pending_errors`] reports are cleared.
pub open spec fn sr_after_checks(sr: u32) -> u32
    decreases error_count(sr),
{
    match reported_error(sr) {
        Some(e) => {
            proof {
                lemma_clear_counts_down(sr, e);
            }
            sr_after_checks(sr_after_clear(sr, e))
        },
        None => sr,
    }
}

/// With `k` error flags set, checking the status register, clearing the
/// reported error's flag and checking again, `k + 1` times, reports each of
/// the `k` errors exactly once, in the order of the checks, and then no
/// error: afterwards no error flag is set, and no other bit of the status
/// register has changed.
pub proof fn lemma_checks_report_each_error_once(sr: u32)
    ensures
        pending_errors(sr).len() == error_count(sr),
        forall|i: int, j: int|
            0 <= i < j < pending_errors(sr).len() ==> spec_priority(
                #[trigger] pending_errors(sr)[i],
            ) < spec_priority(#[trigger] pending_errors(sr)[j]),
        forall|e: Error| pending_errors(sr).contains(e) <==> bit_set(sr, e.spec_flag()),
        reported_error(sr_after_checks(sr)) is None,
        error_count(sr_after_checks(sr)) == 0,
        forall|n: u32|
            n < 32 && n != SR_FWWERR && n != SR_NOTZEROERR && n != SR_RDERR && n != SR_OPTVERR
                && n != SR_SIZERR && n != SR_PGAERR && n != SR_WRPERR ==> #[trigger] bit_set(
                sr_after_checks(sr),
                n,
            ) == bit_set(sr, n),
    decreases error_count(sr),
{
    lemma_error_reported(sr);
    match reported_error(sr) {
        Some(e) => {
            let s2 = sr_after_clear(sr, e);
            lemma_clear_counts_down(sr, e);
            lemma_check_after_clear(sr, e);
            lemma_checks_report_each_error_once(s2);
            let rest = pending_errors(s2);
            let all = pending_errors(sr);
            assert(all == seq![e] + rest);
            assert(sr_after_checks(sr) == sr_after_checks(s2));
            // Every error still pending after `e` is checked after it.
            assert forall|x: Error| rest.contains(x) implies spec_priority(e) < spec_priority(x) by {
                assert(bit_set(s2, x.spec_flag()));
                assert(x.spec_flag() != e.spec_flag());
                assert(bit_set(sr, x.spec_flag()));
            }
            assert forall|i: int, j: int|
                0 <= i < j < all.len() implies spec_priority(#[trigger] all[i]) < spec_priority(
                #[trigger] all[j],
            ) by {
                if i == 0 {
                    assert(all[j] == rest[j - 1]);
                    assert(rest.contains(rest[j - 1]));
                } else {
                    assert(all[i] == rest[i - 1]);
                    assert(all[j] == rest[j - 1]);
                }
            }
            assert forall|x: Error| all.contains(x) <==> bit_set(sr, x.spec_flag()) by {
                if all.contains(x) {
                    let k = choose|k: int| 0 <= k < all.len() && all[k] == x;
                    if k > 0 {
                        assert(rest[k - 1] == x);
                        assert(rest.contains(x));
                    }
                }
                if bit_set(sr, x.spec_flag()) {
                    if x == e {
                        assert(all[0] == x);
                    } else {
                        assert(x.spec_flag() != e.spec_flag());
                        assert(bit_set(s2, x.spec_flag()));
                        assert(rest.contains(x));
                        let k = choose|k: int| 0 <= k < rest.len() && rest[k] == x;
                        assert(all[k + 1] == x);
                    }
                }
            }
            assert forall|n: u32|
                n < 32 && n != SR_FWWERR && n != SR_NOTZEROERR && n != SR_RDERR && n != SR_OPTVERR
                    && n != SR_SIZERR && n != SR_PGAERR && n != SR_WRPERR implies #[trigger] bit_set(
                sr_after_checks(sr),
                n,
            ) == bit_set(sr, n) by {
                assert(bit_set(sr_after_checks(s2), n) == bit_set(s2, n));
                assert(n != e.spec_flag());
                assert(bit_set(s2, n) == bit_set(sr, n));
            }
        },
        None => {
            assert(pending_errors(sr) =~= Seq::<Error>::empty());
        },
    }
}

} // verus!

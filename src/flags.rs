//! The 32-bit notification-flag word and how the OS reports failure in it.

use vstd::prelude::*;

verus! {

/// Bit of a raw flag word that marks the whole word as a negative status code.
pub const FLAG_ERROR: u32 = 0x8000_0000;

/// Wait option: wake as soon as any of the requested bits is set.
pub const FLAG_WAIT_ANY: u32 = 0;

/// Wait option: wake only once all of the requested bits are set.
pub const FLAG_WAIT_ALL: u32 = 1;

/// Wait option: leave the matched bits set after waking.
pub const FLAG_NO_CLEAR: u32 = 2;

/// Status code: success.
pub const STATUS_OK: i32 = 0;

/// Status code: unspecified OS error.
pub const STATUS_ERROR: i32 = -1;

/// Status code: the operation did not complete within its timeout.
pub const STATUS_ERROR_TIMEOUT: i32 = -2;

/// Status code: the resource is not available.
pub const STATUS_ERROR_RESOURCE: i32 = -3;

/// Status code: a parameter was rejected.
pub const STATUS_ERROR_PARAMETER: i32 = -4;

/// Status code: the OS ran out of memory.
pub const STATUS_ERROR_NO_MEMORY: i32 = -5;

/// Status code: the call is not allowed from an interrupt handler.
pub const STATUS_ERROR_ISR: i32 = -6;

/// An OS status code, as reported in a failed flag operation.
#[derive(Clone, Copy, Debug, PartialEq, Eq, Structural)]
pub struct Status(pub i32);

/// Which condition a flag wait waits for.
#[derive(Clone, Copy, Debug, PartialEq, Eq, Structural)]
pub enum WaitMode {
    Any,
    All,
}

/// A raw word with the error bit set is an error report.
pub open spec fn is_error_word(raw: u32) -> bool {
    raw >= FLAG_ERROR
}

/// The raw word read as a two's-complement signed value.
pub open spec fn signed_word(raw: u32) -> int {
    if raw < FLAG_ERROR {
        raw as int
    } else {
        raw as int - 0x1_0000_0000
    }
}

/// What a flag operation reports for the raw word the OS returned.
pub open spec fn flags_result(raw: u32) -> Result<u32, Status> {
    if is_error_word(raw) {
        Err(Status(signed_word(raw) as i32))
    } else {
        Ok(raw)
    }
}

/// The option word handed to the OS for a flag wait.
pub open spec fn options_word(mode: WaitMode, clear: bool) -> u32 {
    let base: u32 = match mode {
        WaitMode::Any => FLAG_WAIT_ANY,
        WaitMode::All => FLAG_WAIT_ALL,
    };
    if clear {
        base
    } else {
        (base + FLAG_NO_CLEAR) as u32
    }
}

/// A negative status that the OS reports in a flag word (its two's-complement
/// bits, which set the error bit) is decoded back to that same status, and a
/// word without the error bit is handed back as the flag value unchanged.
pub proof fn lemma_status_word_round_trip(code: i32, word: u32)
    ensures
        code < 0 ==> ((code as int + 0x1_0000_0000) as u32 as int == code as int + 0x1_0000_0000
            && is_error_word((code as int + 0x1_0000_0000) as u32)
            && flags_result((code as int + 0x1_0000_0000) as u32) == Err::<u32, Status>(Status(code))),
        !is_error_word(word) ==> flags_result(word) == Ok::<u32, Status>(word),
{
}

/// Interprets the raw result of a flag operation: a word with the error bit
/// set is the status code it encodes, any other word is the flag value.
pub fn decode_flags(raw: u32) -> (r: Result<u32, Status>)
    ensures
        r == flags_result(raw),
        r is Err <==> raw & FLAG_ERROR != 0,
{
    assert(raw & 0x8000_0000u32 != 0 <==> raw >= 0x8000_0000u32) by (bit_vector);
    if raw & FLAG_ERROR != 0 {
        let low: u32 = raw - FLAG_ERROR;
        let code: i32 = (low as i32) - 0x7fff_ffffi32 - 1i32;
        Err(Status(code))
    } else {
        Ok(raw)
    }
}

/// Builds the option word for a flag wait: the wait mode, plus the no-clear
/// option unless the matched bits are to be cleared on wake.
pub fn wait_options(mode: WaitMode, clear: bool) -> (r: u32)
    ensures
        r == options_word(mode, clear),
        clear <==> r & FLAG_NO_CLEAR == 0,
        (mode == WaitMode::All) <==> r & FLAG_WAIT_ALL != 0,
{
    let base: u32 = match mode {
        WaitMode::Any => FLAG_WAIT_ANY,
        WaitMode::All => FLAG_WAIT_ALL,
    };
    let r: u32 = if clear {
        base
    } else {
        base + FLAG_NO_CLEAR
    };
    assert(0u32 & 2u32 == 0u32 && 1u32 & 2u32 == 0u32 && 2u32 & 2u32 != 0u32 && 3u32 & 2u32 != 0u32)
        by (bit_vector);
    assert(0u32 & 1u32 == 0u32 && 1u32 & 1u32 != 0u32 && 2u32 & 1u32 == 0u32 && 3u32 & 1u32 != 0u32)
        by (bit_vector);
    r
}

} // verus!

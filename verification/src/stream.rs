//! The decisions taken around a running stream: what a callback's answer
//! tells libhackrf, how many bytes a block holds, and the order in which a
//! transmission is started and rolled back.
use vstd::prelude::*;

use crate::error::{check, error_for_code, result_for_code, Error};

verus! {

/// What an RX (or sweep) callback asks the driver to do next.
#[derive(Debug, Clone, Copy, PartialEq, Eq, Structural)]
pub enum RxStreamResult {
    /// Keep streaming.
    Continue,
    /// Stop streaming after this block.
    Stop,
}

/// What a TX callback asks the driver to do next, carrying how many bytes it
/// wrote into the transmit buffer.
#[derive(Debug, Clone, Copy, PartialEq, Eq, Structural)]
pub enum TxStreamResult {
    /// Transmit `len` bytes and keep streaming.
    Continue(usize),
    /// Transmit `len` bytes, then stop streaming.
    Stop(usize),
}

impl TxStreamResult {
    /// Number of bytes written into the transmit buffer.
    pub open spec fn spec_len(self) -> usize {
        match self {
            TxStreamResult::Continue(n) => n,
            TxStreamResult::Stop(n) => n,
        }
    }

    /// Number of bytes written into the transmit buffer.
    #[verifier::when_used_as_spec(spec_len)]
    pub fn len(self) -> (n: usize)
        ensures
            n == self.spec_len(),
    {
        match self {
            TxStreamResult::Continue(len) => len,
            TxStreamResult::Stop(len) => len,
        }
    }
}

/// Law: the byte count of a TX callback's answer is the number it carries,
/// whatever that number is and whether the stream goes on or stops.
pub proof fn law_tx_len_is_carried_count(n: usize)
    ensures
        TxStreamResult::Continue(n).len() == n,
        TxStreamResult::Stop(n).len() == n,
{
}

/// Number of bytes of a transfer handed to the callback: its valid length,
/// or nothing when libhackrf reports a negative length.
pub fn transfer_len(length: i32) -> (n: usize)
    ensures
        n == if length < 0 { 0 } else { length as int },
{
    if length < 0 {
        0
    } else {
        length as usize
    }
}

/// The value an RX transfer callback returns to libhackrf: `0` to go on only
/// when the callback answered `Continue`; `1` (stop) when it answered `Stop`
/// or panicked (`None`).
pub fn rx_callback_code(outcome: Option<RxStreamResult>) -> (c: i32)
    ensures
        c == if outcome == Some(RxStreamResult::Continue) { 0i32 } else { 1i32 },
{
    match outcome {
        Some(RxStreamResult::Continue) => 0,
        _ => 1,
    }
}

/// What a TX transfer callback reports back to libhackrf.
#[derive(Debug, Clone, Copy, PartialEq, Eq, Structural)]
pub struct TxTransferOutcome {
    /// Number of valid bytes in the transmit buffer.
    pub valid_length: i32,
    /// `0` to keep streaming, `1` to stop.
    pub code: i32,
}

/// The report of a TX transfer callback whose buffer holds `capacity` bytes:
/// the callback's byte count capped at the capacity, `0` to go on after
/// `Continue` and `1` after `Stop`; after a panic (`None`), no valid bytes and
/// stop.
pub fn tx_callback_outcome(outcome: Option<TxStreamResult>, capacity: usize) -> (r:
    TxTransferOutcome)
    requires
        capacity <= i32::MAX,
    ensures
        0 <= r.valid_length <= capacity,
        match outcome {
            Some(TxStreamResult::Continue(n)) => {
                &&& r.valid_length == if n < capacity { n as int } else { capacity as int }
                &&& r.code == 0
            },
            Some(TxStreamResult::Stop(n)) => {
                &&& r.valid_length == if n < capacity { n as int } else { capacity as int }
                &&& r.code == 1
            },
            None => r.valid_length == 0 && r.code == 1,
        },
{
    match outcome {
        Some(block) => {
            let len: usize = block.len();
            let valid: usize = if len < capacity {
                len
            } else {
                capacity
            };
            let code: i32 = match block {
                TxStreamResult::Continue(_) => 0,
                TxStreamResult::Stop(_) => 1,
            };
            TxTransferOutcome { valid_length: valid as i32, code }
        },
        None => TxTransferOutcome { valid_length: 0, code: 1 },
    }
}

/// The steps of starting a transmission.
#[derive(Debug, Clone, Copy)]
pub enum TxStartStep {
    /// Register the flush callback (`hackrf_enable_tx_flush`).
    EnableFlush,
    /// Start transmitting (`hackrf_start_tx`).
    StartTx,
    /// Finished: `result` is the outcome, and `unregister_flush` says whether
    /// the flush callback must be removed again before giving up.
    Done { result: Result<(), Error>, unregister_flush: bool },
}

/// The first step of starting a transmission: the flush callback refers to
/// the stream's context, so it is registered before the stream starts.
pub fn tx_start_begin(had_flush: bool) -> (s: TxStartStep)
    ensures
        s == (if had_flush {
            TxStartStep::EnableFlush
        } else {
            TxStartStep::StartTx
        }),
{
    if had_flush {
        TxStartStep::EnableFlush
    } else {
        TxStartStep::StartTx
    }
}

/// The step that follows `step` once its libhackrf call returned `code`:
/// a failed registration ends the start without starting the stream, a
/// failed start rolls the registration back, and every failure reports the
/// error its code names.
pub open spec fn spec_tx_start_next(had_flush: bool, step: TxStartStep, code: i32) -> TxStartStep {
    match step {
        TxStartStep::EnableFlush => if code == 0 {
            TxStartStep::StartTx
        } else {
            TxStartStep::Done { result: Err(error_for_code(code)), unregister_flush: true }
        },
        _ => TxStartStep::Done {
            result: result_for_code(code),
            unregister_flush: had_flush && code != 0,
        },
    }
}

/// The step that follows `step` once its libhackrf call returned `code`.
pub fn tx_start_advance(had_flush: bool, step: TxStartStep, code: i32) -> (s: TxStartStep)
    requires
        step is EnableFlush ==> had_flush,
        !(step is Done),
    ensures
        s == spec_tx_start_next(had_flush, step, code),
{
    match step {
        TxStartStep::EnableFlush => {
            match check(code) {
                Ok(()) => TxStartStep::StartTx,
                Err(e) => TxStartStep::Done { result: Err(e), unregister_flush: true },
            }
        },
        _ => {
            let result = check(code);
            TxStartStep::Done { result, unregister_flush: had_flush && code != 0 }
        },
    }
}

/// Whether the flush callback is registered once the start protocol ended in
/// `done`, having begun with or without one.
pub open spec fn flush_left_registered(had_flush: bool, done: TxStartStep) -> bool {
    match done {
        TxStartStep::Done { unregister_flush, .. } => had_flush && !unregister_flush,
        _ => false,
    }
}

/// Law: starting a transmission takes the registration step only when a
/// flush callback is given, and ends after at most two calls; it succeeds
/// exactly when every call it made returned `0`, and the flush callback is
/// left registered exactly when one was given and the stream started.
pub proof fn law_tx_start_protocol(had_flush: bool, flush_code: i32, start_code: i32)
    ensures
        ({
            let first = if had_flush {
                spec_tx_start_next(had_flush, TxStartStep::EnableFlush, flush_code)
            } else {
                TxStartStep::StartTx
            };
            let done = if first is StartTx {
                spec_tx_start_next(had_flush, first, start_code)
            } else {
                first
            };
            let succeeded = (!had_flush || flush_code == 0) && start_code == 0;
            &&& done is Done
            &&& (done->result is Ok <==> succeeded)
            &&& (flush_left_registered(had_flush, done) <==> (had_flush && succeeded))
        }),
{
    if had_flush && flush_code != 0 {
        crate::error::law_error_keeps_code(flush_code);
    }
}

} // verus!

//! Checks and conversions around the device calls that take or return more
//! than a status code.
use vstd::prelude::*;

use crate::error::Error;
use crate::hackrf_wrapper::{hackrf_error, HACKRF_OPERACAKE_ADDRESS_INVALID, MAX_SWEEP_RANGES};

verus! {

/// The frequency list of a sweep: each `(start, stop)` range in MHz, laid
/// out as `start, stop` pairs in the order given.
pub open spec fn flatten_ranges(ranges: Seq<(u16, u16)>) -> Seq<u16> {
    Seq::new(
        2 * ranges.len(),
        |i: int|
            if i % 2 == 0 {
                ranges[i / 2].0
            } else {
                ranges[i / 2].1
            },
    )
}

/// Checks the ranges of a sweep and lays them out as libhackrf's frequency
/// list. Fails with `HACKRF_ERROR_INVALID_PARAM` when there is no range or
/// more than `MAX_SWEEP_RANGES` of them.
pub fn sweep_frequency_list(ranges: &[(u16, u16)]) -> (r: Result<Vec<u16>, Error>)
    ensures
        (ranges@.len() == 0 || ranges@.len() > MAX_SWEEP_RANGES) ==> r == Err::<Vec<u16>, Error>(
            Error::Known(hackrf_error::HACKRF_ERROR_INVALID_PARAM),
        ),
        (0 < ranges@.len() <= MAX_SWEEP_RANGES) ==> (r matches Ok(flat) && flat@ == flatten_ranges(
            ranges@,
        )),
{
    if ranges.len() == 0 || ranges.len() > MAX_SWEEP_RANGES {
        return Err(Error::Known(hackrf_error::HACKRF_ERROR_INVALID_PARAM));
    }
    let mut flat: Vec<u16> = Vec::new();
    let mut i: usize = 0;
    while i < ranges.len()
        invariant
            i <= ranges@.len() <= MAX_SWEEP_RANGES,
            flat@ == flatten_ranges(ranges@.take(i as int)),
        decreases ranges@.len() - i,
    {
        let (lo, hi) = ranges[i];
        flat.push(lo);
        flat.push(hi);
        assert(flat@ =~= flatten_ranges(ranges@.take(i + 1)));
        i = i + 1;
    }
    assert(ranges@.take(ranges@.len() as int) =~= ranges@);
    Ok(flat)
}

/// Whether an Opera Cake address slot holds a board.
pub open spec fn is_board_address(b: u8) -> bool {
    b != HACKRF_OPERACAKE_ADDRESS_INVALID
}

/// The addresses of the boards present, in slot order: every slot but the
/// ones marked `HACKRF_OPERACAKE_ADDRESS_INVALID`.
pub fn present_operacake_boards(slots: &[u8]) -> (r: Vec<u8>)
    ensures
        r@ == slots@.filter(|b: u8| is_board_address(b)),
{
    let ghost pred = |b: u8| is_board_address(b);
    let mut r: Vec<u8> = Vec::new();
    let mut i: usize = 0;
    while i < slots.len()
        invariant
            i <= slots@.len(),
            pred == (|b: u8| is_board_address(b)),
            r@ == slots@.take(i as int).filter(pred),
        decreases slots@.len() - i,
    {
        if slots[i] != HACKRF_OPERACAKE_ADDRESS_INVALID {
            r.push(slots[i]);
        }
        proof {
            reveal(Seq::filter);
            assert(slots@.take(i + 1).drop_last() =~= slots@.take(i as int));
            assert(slots@.take(i + 1).last() == slots@[i as int]);
        }
        i = i + 1;
    }
    assert(slots@.take(slots@.len() as int) =~= slots@);
    r
}

/// Number of devices in a libhackrf device list whose count is `devicecount`
/// (a negative count means none).
pub fn device_count(devicecount: i32) -> (n: usize)
    ensures
        n == if devicecount < 0 { 0 } else { devicecount as int },
{
    if devicecount < 0 {
        0
    } else {
        devicecount as usize
    }
}

} // verus!

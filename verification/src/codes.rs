//! Decoding of the raw numbers libhackrf reports into the enums of
//! [`crate::hackrf_wrapper`].
use vstd::prelude::*;

use crate::hackrf_wrapper::{
    hackrf_board_id, hackrf_board_rev, hackrf_usb_board_id, operacake_switching_mode,
};

verus! {

/// Whether `v` is the number of some board id.
pub open spec fn is_board_id_code(v: int) -> bool {
    exists|b: hackrf_board_id| b.code() == v
}

/// Whether `v` is the number of some board revision.
pub open spec fn is_board_rev_code(v: int) -> bool {
    exists|b: hackrf_board_rev| b.code() == v
}

/// Whether `v` is the number of some USB board id.
pub open spec fn is_usb_board_id_code(v: int) -> bool {
    exists|b: hackrf_usb_board_id| b.code() == v
}

/// Whether `v` is the number of some Opera Cake switching mode.
pub open spec fn is_operacake_mode_code(v: int) -> bool {
    exists|m: operacake_switching_mode| m.code() == v
}

/// Decodes a board id byte; a byte that names no board id decodes to
/// `BOARD_ID_UNDETECTED`.
pub fn board_id_from_raw(v: u8) -> (r: hackrf_board_id)
    ensures
        forall|b: hackrf_board_id| b.code() == v ==> r == b,
        !is_board_id_code(v as int) ==> r == hackrf_board_id::BOARD_ID_UNDETECTED,
{
    let r = match v {
        0 => hackrf_board_id::BOARD_ID_JELLYBEAN,
        1 => hackrf_board_id::BOARD_ID_JAWBREAKER,
        2 => hackrf_board_id::BOARD_ID_HACKRF1_OG,
        3 => hackrf_board_id::BOARD_ID_RAD1O,
        4 => hackrf_board_id::BOARD_ID_HACKRF1_R9,
        5 => hackrf_board_id::BOARD_ID_PRALINE,
        0xFE => hackrf_board_id::BOARD_ID_UNRECOGNIZED,
        _ => hackrf_board_id::BOARD_ID_UNDETECTED,
    };
    proof {
        if r.code() == v {
            assert(is_board_id_code(v as int));
        }
    }
    r
}

/// Decodes a board revision byte; a byte that names no revision decodes to
/// `BOARD_REV_UNDETECTED`.
pub fn board_rev_from_raw(v: u8) -> (r: hackrf_board_rev)
    ensures
        forall|b: hackrf_board_rev| b.code() == v ==> r == b,
        !is_board_rev_code(v as int) ==> r == hackrf_board_rev::BOARD_REV_UNDETECTED,
{
    let r = match v {
        0 => hackrf_board_rev::BOARD_REV_HACKRF1_OLD,
        1 => hackrf_board_rev::BOARD_REV_HACKRF1_R6,
        2 => hackrf_board_rev::BOARD_REV_HACKRF1_R7,
        3 => hackrf_board_rev::BOARD_REV_HACKRF1_R8,
        4 => hackrf_board_rev::BOARD_REV_HACKRF1_R9,
        5 => hackrf_board_rev::BOARD_REV_HACKRF1_R10,
        6 => hackrf_board_rev::BOARD_REV_PRALINE_R0_1,
        7 => hackrf_board_rev::BOARD_REV_PRALINE_R0_2,
        8 => hackrf_board_rev::BOARD_REV_PRALINE_R0_3,
        9 => hackrf_board_rev::BOARD_REV_PRALINE_R1_0,
        10 => hackrf_board_rev::BOARD_REV_PRALINE_R1_1,
        11 => hackrf_board_rev::BOARD_REV_PRALINE_R1_2,
        0x81 => hackrf_board_rev::BOARD_REV_GSG_HACKRF1_R6,
        0x82 => hackrf_board_rev::BOARD_REV_GSG_HACKRF1_R7,
        0x83 => hackrf_board_rev::BOARD_REV_GSG_HACKRF1_R8,
        0x84 => hackrf_board_rev::BOARD_REV_GSG_HACKRF1_R9,
        0x85 => hackrf_board_rev::BOARD_REV_GSG_HACKRF1_R10,
        0x86 => hackrf_board_rev::BOARD_REV_GSG_PRALINE_R0_1,
        0x87 => hackrf_board_rev::BOARD_REV_GSG_PRALINE_R0_2,
        0x88 => hackrf_board_rev::BOARD_REV_GSG_PRALINE_R0_3,
        0x89 => hackrf_board_rev::BOARD_REV_GSG_PRALINE_R1_0,
        0x8a => hackrf_board_rev::BOARD_REV_GSG_PRALINE_R1_1,
        0x8b => hackrf_board_rev::BOARD_REV_GSG_PRALINE_R1_2,
        0xFE => hackrf_board_rev::BOARD_REV_UNRECOGNIZED,
        _ => hackrf_board_rev::BOARD_REV_UNDETECTED,
    };
    proof {
        if r.code() == v {
            assert(is_board_rev_code(v as int));
        }
    }
    r
}

/// Decodes a USB product id; an id that names no HackRF variant decodes to
/// `USB_BOARD_ID_INVALID`.
pub fn usb_board_id_from_raw(v: i32) -> (r: hackrf_usb_board_id)
    ensures
        forall|b: hackrf_usb_board_id| b.code() == v ==> r == b,
        !is_usb_board_id_code(v as int) ==> r == hackrf_usb_board_id::USB_BOARD_ID_INVALID,
{
    let r = match v {
        0x604B => hackrf_usb_board_id::USB_BOARD_ID_JAWBREAKER,
        0x6089 => hackrf_usb_board_id::USB_BOARD_ID_HACKRF_ONE,
        0xCC15 => hackrf_usb_board_id::USB_BOARD_ID_RAD1O,
        _ => hackrf_usb_board_id::USB_BOARD_ID_INVALID,
    };
    proof {
        if r.code() == v {
            assert(is_usb_board_id_code(v as int));
        }
    }
    r
}

/// Decodes an Opera Cake switching mode; `None` for a number that names no
/// mode.
pub fn operacake_mode_from_raw(v: i32) -> (r: Option<operacake_switching_mode>)
    ensures
        forall|m: operacake_switching_mode| m.code() == v ==> r == Some(m),
        !is_operacake_mode_code(v as int) ==> r is None,
{
    let r = match v {
        0 => Some(operacake_switching_mode::OPERACAKE_MODE_MANUAL),
        1 => Some(operacake_switching_mode::OPERACAKE_MODE_FREQUENCY),
        2 => Some(operacake_switching_mode::OPERACAKE_MODE_TIME),
        _ => None,
    };
    proof {
        if let Some(m) = r {
            assert(m.code() == v);
        }
    }
    r
}

} // verus!

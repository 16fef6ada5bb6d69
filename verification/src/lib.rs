//! Verified core of a HackRF driver wrapper: the status-code, board and
//! stream conventions of libhackrf, and the bookkeeping of the Android USB
//! flow.
#![allow(non_camel_case_types)]

pub mod android;
pub mod codes;
pub mod device;
pub mod error;
pub mod hackrf_wrapper;
pub mod hex;
pub mod stream;

pub use android::{set_android_activity_class, DeviceList};
pub use error::{check, Error};
pub use hackrf_wrapper::{
    clkin_ctrl_signal, hackrf_bias_t_user_settting_req, hackrf_board_id, hackrf_board_rev,
    hackrf_bool_user_settting, hackrf_error, hackrf_operacake_dwell_time,
    hackrf_operacake_freq_range, hackrf_usb_board_id, operacake_ports, operacake_switching_mode,
    p1_ctrl_signal, p2_ctrl_signal, read_partid_serialno_t, rf_path_filter, sweep_style,
    BYTES_PER_BLOCK, HACKRF_OPERACAKE_ADDRESS_INVALID, HACKRF_OPERACAKE_MAX_BOARDS,
    HACKRF_OPERACAKE_MAX_DWELL_TIMES, HACKRF_OPERACAKE_MAX_FREQ_RANGES, MAX_SWEEP_RANGES,
};
pub use stream::{RxStreamResult, TxStreamResult};

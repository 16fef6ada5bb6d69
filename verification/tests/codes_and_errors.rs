use hackrf::codes::{
    board_id_from_raw, board_rev_from_raw, operacake_mode_from_raw, usb_board_id_from_raw,
};
use hackrf::error::{check, is_streaming, known_error, Error};
use hackrf::hackrf_wrapper::{
    hackrf_board_id, hackrf_board_rev, hackrf_error, hackrf_usb_board_id, operacake_ports,
    operacake_switching_mode, p2_ctrl_signal, rf_path_filter, BOARD_ID_HACKRF_ONE,
    BOARD_ID_INVALID,
};

const ALL_ERRORS: [hackrf_error; 14] = [
    hackrf_error::HACKRF_SUCCESS,
    hackrf_error::HACKRF_TRUE,
    hackrf_error::HACKRF_ERROR_INVALID_PARAM,
    hackrf_error::HACKRF_ERROR_NOT_FOUND,
    hackrf_error::HACKRF_ERROR_BUSY,
    hackrf_error::HACKRF_ERROR_NO_MEM,
    hackrf_error::HACKRF_ERROR_LIBUSB,
    hackrf_error::HACKRF_ERROR_THREAD,
    hackrf_error::HACKRF_ERROR_STREAMING_THREAD_ERR,
    hackrf_error::HACKRF_ERROR_STREAMING_STOPPED,
    hackrf_error::HACKRF_ERROR_STREAMING_EXIT_CALLED,
    hackrf_error::HACKRF_ERROR_USB_API_VERSION,
    hackrf_error::HACKRF_ERROR_NOT_LAST_DEVICE,
    hackrf_error::HACKRF_ERROR_OTHER,
];

#[test]
fn error_codes_match_libhackrf() {
    assert_eq!(hackrf_error::HACKRF_SUCCESS.code(), 0);
    assert_eq!(hackrf_error::HACKRF_TRUE.code(), 1);
    assert_eq!(hackrf_error::HACKRF_ERROR_INVALID_PARAM.code(), -2);
    assert_eq!(hackrf_error::HACKRF_ERROR_NO_MEM.code(), -11);
    assert_eq!(hackrf_error::HACKRF_ERROR_USB_API_VERSION.code(), -1005);
    assert_eq!(hackrf_error::HACKRF_ERROR_NOT_LAST_DEVICE.code(), -2000);
    assert_eq!(hackrf_error::HACKRF_ERROR_OTHER.code(), -9999);
}

#[test]
fn known_error_round_trips_every_kind() {
    for e in ALL_ERRORS {
        assert_eq!(known_error(e.code()), Some(e));
    }
    assert_eq!(known_error(-3), None);
    assert_eq!(known_error(2), None);
    assert_eq!(known_error(-10000), None);
}

#[test]
fn check_success_is_ok() {
    assert_eq!(check(0), Ok(()));
}

#[test]
fn check_named_codes_fail_with_their_kind() {
    for e in ALL_ERRORS {
        if e != hackrf_error::HACKRF_SUCCESS {
            assert_eq!(check(e.code()), Err(Error::Known(e)));
        }
    }
    assert_eq!(check(1), Err(Error::Known(hackrf_error::HACKRF_TRUE)));
    assert_eq!(check(-6), Err(Error::Known(hackrf_error::HACKRF_ERROR_BUSY)));
}

#[test]
fn check_unnamed_codes_fail_as_unknown() {
    assert_eq!(check(-3), Err(Error::Unknown(-3)));
    assert_eq!(check(42), Err(Error::Unknown(42)));
    assert_eq!(check(i32::MIN), Err(Error::Unknown(i32::MIN)));
}

#[test]
fn error_display_parts() {
    let known = Error::Known(hackrf_error::HACKRF_ERROR_NOT_FOUND);
    assert_eq!(known.display_kind(), hackrf_error::HACKRF_ERROR_NOT_FOUND);
    assert_eq!(known.raw_code(), -5);
    let unknown = Error::Unknown(-77);
    assert_eq!(unknown.display_kind(), hackrf_error::HACKRF_ERROR_OTHER);
    assert_eq!(unknown.raw_code(), -77);
}

#[test]
fn failing_codes_keep_their_number() {
    for code in [-2, -5, -9999, -3, 7, 1, 12345] {
        let e = check(code).unwrap_err();
        assert_eq!(e.raw_code(), code);
    }
}

#[test]
fn is_streaming_true_code() {
    assert_eq!(is_streaming(1), Ok(true));
}

#[test]
fn is_streaming_stopped_codes() {
    assert_eq!(is_streaming(-1002), Ok(false));
    assert_eq!(is_streaming(-1003), Ok(false));
    assert_eq!(is_streaming(-1004), Ok(false));
}

#[test]
fn is_streaming_other_codes_are_errors() {
    assert_eq!(is_streaming(0), Err(Error::Known(hackrf_error::HACKRF_SUCCESS)));
    assert_eq!(is_streaming(-1000), Err(Error::Known(hackrf_error::HACKRF_ERROR_LIBUSB)));
    assert_eq!(is_streaming(-1005), Err(Error::Known(hackrf_error::HACKRF_ERROR_USB_API_VERSION)));
    assert_eq!(is_streaming(99), Err(Error::Unknown(99)));
}

#[test]
fn board_id_decoding() {
    assert_eq!(board_id_from_raw(0), hackrf_board_id::BOARD_ID_JELLYBEAN);
    assert_eq!(board_id_from_raw(2), hackrf_board_id::BOARD_ID_HACKRF1_OG);
    assert_eq!(board_id_from_raw(5), hackrf_board_id::BOARD_ID_PRALINE);
    assert_eq!(board_id_from_raw(0xFE), hackrf_board_id::BOARD_ID_UNRECOGNIZED);
    assert_eq!(board_id_from_raw(0xFF), hackrf_board_id::BOARD_ID_UNDETECTED);
    assert_eq!(board_id_from_raw(6), hackrf_board_id::BOARD_ID_UNDETECTED);
    assert_eq!(board_id_from_raw(0x80), hackrf_board_id::BOARD_ID_UNDETECTED);
}

#[test]
fn board_id_round_trip() {
    for v in 0u8..=255 {
        let b = board_id_from_raw(v);
        if b != hackrf_board_id::BOARD_ID_UNDETECTED {
            assert_eq!(b.code(), v as i32);
        }
        assert_eq!(board_id_from_raw(b.code() as u8), b);
    }
}

#[test]
fn board_id_aliases() {
    assert_eq!(BOARD_ID_HACKRF_ONE, hackrf_board_id::BOARD_ID_HACKRF1_OG);
    assert_eq!(BOARD_ID_INVALID, hackrf_board_id::BOARD_ID_UNDETECTED);
}

#[test]
fn board_rev_decoding() {
    assert_eq!(board_rev_from_raw(0), hackrf_board_rev::BOARD_REV_HACKRF1_OLD);
    assert_eq!(board_rev_from_raw(5), hackrf_board_rev::BOARD_REV_HACKRF1_R10);
    assert_eq!(board_rev_from_raw(11), hackrf_board_rev::BOARD_REV_PRALINE_R1_2);
    assert_eq!(board_rev_from_raw(0x81), hackrf_board_rev::BOARD_REV_GSG_HACKRF1_R6);
    assert_eq!(board_rev_from_raw(0x8b), hackrf_board_rev::BOARD_REV_GSG_PRALINE_R1_2);
    assert_eq!(board_rev_from_raw(0xFE), hackrf_board_rev::BOARD_REV_UNRECOGNIZED);
    assert_eq!(board_rev_from_raw(0xFF), hackrf_board_rev::BOARD_REV_UNDETECTED);
    assert_eq!(board_rev_from_raw(12), hackrf_board_rev::BOARD_REV_UNDETECTED);
    assert_eq!(board_rev_from_raw(0x80), hackrf_board_rev::BOARD_REV_UNDETECTED);
    assert_eq!(board_rev_from_raw(0x8c), hackrf_board_rev::BOARD_REV_UNDETECTED);
}

#[test]
fn board_rev_round_trip() {
    let mut named = 0;
    for v in 0u8..=255 {
        let b = board_rev_from_raw(v);
        if b != hackrf_board_rev::BOARD_REV_UNDETECTED {
            assert_eq!(b.code(), v as i32);
            named += 1;
        }
        assert_eq!(board_rev_from_raw(b.code() as u8), b);
    }
    assert_eq!(named, 24);
}

#[test]
fn usb_board_id_decoding() {
    assert_eq!(usb_board_id_from_raw(0x604B), hackrf_usb_board_id::USB_BOARD_ID_JAWBREAKER);
    assert_eq!(usb_board_id_from_raw(0x6089), hackrf_usb_board_id::USB_BOARD_ID_HACKRF_ONE);
    assert_eq!(usb_board_id_from_raw(0xCC15), hackrf_usb_board_id::USB_BOARD_ID_RAD1O);
    assert_eq!(usb_board_id_from_raw(0xFFFF), hackrf_usb_board_id::USB_BOARD_ID_INVALID);
    assert_eq!(usb_board_id_from_raw(0), hackrf_usb_board_id::USB_BOARD_ID_INVALID);
    assert_eq!(usb_board_id_from_raw(-1), hackrf_usb_board_id::USB_BOARD_ID_INVALID);
}

#[test]
fn operacake_mode_decoding() {
    assert_eq!(operacake_mode_from_raw(0), Some(operacake_switching_mode::OPERACAKE_MODE_MANUAL));
    assert_eq!(operacake_mode_from_raw(1), Some(operacake_switching_mode::OPERACAKE_MODE_FREQUENCY));
    assert_eq!(operacake_mode_from_raw(2), Some(operacake_switching_mode::OPERACAKE_MODE_TIME));
    assert_eq!(operacake_mode_from_raw(3), None);
    assert_eq!(operacake_mode_from_raw(-1), None);
}

#[test]
fn enum_codes_for_calls() {
    assert_eq!(rf_path_filter::RF_PATH_FILTER_HIGH_PASS.code(), 2);
    assert_eq!(operacake_ports::OPERACAKE_PB4.code(), 7);
    assert_eq!(p2_ctrl_signal::P2_SIGNAL_TRIGGER_IN.code(), 2);
    assert_eq!(p2_ctrl_signal::P2_SIGNAL_TRIGGER_OUT.code(), 3);
}

use hackrf::device::{device_count, present_operacake_boards, sweep_frequency_list};
use hackrf::error::Error;
use hackrf::hackrf_wrapper::{hackrf_error, read_partid_serialno_t};
use hackrf::stream::{
    rx_callback_code, transfer_len, tx_callback_outcome, tx_start_advance, tx_start_begin,
    RxStreamResult, TxStartStep, TxStreamResult,
};

#[test]
fn tx_stream_result_len() {
    assert_eq!(TxStreamResult::Continue(12).len(), 12);
    assert_eq!(TxStreamResult::Stop(0).len(), 0);
    assert_eq!(TxStreamResult::Stop(4096).len(), 4096);
}

#[test]
fn transfer_len_clamps_negative() {
    assert_eq!(transfer_len(-5), 0);
    assert_eq!(transfer_len(0), 0);
    assert_eq!(transfer_len(262144), 262144);
}

#[test]
fn rx_callback_codes() {
    assert_eq!(rx_callback_code(Some(RxStreamResult::Continue)), 0);
    assert_eq!(rx_callback_code(Some(RxStreamResult::Stop)), 1);
    assert_eq!(rx_callback_code(None), 1);
}

#[test]
fn tx_callback_caps_at_capacity() {
    let o = tx_callback_outcome(Some(TxStreamResult::Continue(500)), 100);
    assert_eq!(o.valid_length, 100);
    assert_eq!(o.code, 0);
    let o = tx_callback_outcome(Some(TxStreamResult::Stop(40)), 100);
    assert_eq!(o.valid_length, 40);
    assert_eq!(o.code, 1);
    let o = tx_callback_outcome(Some(TxStreamResult::Continue(100)), 100);
    assert_eq!(o.valid_length, 100);
    assert_eq!(o.code, 0);
}

#[test]
fn tx_callback_panic_stops_with_nothing() {
    let o = tx_callback_outcome(None, 100);
    assert_eq!(o.valid_length, 0);
    assert_eq!(o.code, 1);
}

#[test]
fn tx_start_without_flush() {
    let s = tx_start_begin(false);
    assert!(matches!(s, TxStartStep::StartTx));
    match tx_start_advance(false, s, 0) {
        TxStartStep::Done { result, unregister_flush } => {
            assert_eq!(result, Ok(()));
            assert!(!unregister_flush);
        }
        _ => panic!("expected Done"),
    }
    match tx_start_advance(false, TxStartStep::StartTx, -1000) {
        TxStartStep::Done { result, unregister_flush } => {
            assert_eq!(result, Err(Error::Known(hackrf_error::HACKRF_ERROR_LIBUSB)));
            assert!(!unregister_flush);
        }
        _ => panic!("expected Done"),
    }
}

#[test]
fn tx_start_with_flush_success() {
    let s = tx_start_begin(true);
    assert!(matches!(s, TxStartStep::EnableFlush));
    let s = tx_start_advance(true, s, 0);
    assert!(matches!(s, TxStartStep::StartTx));
    match tx_start_advance(true, s, 0) {
        TxStartStep::Done { result, unregister_flush } => {
            assert_eq!(result, Ok(()));
            assert!(!unregister_flush);
        }
        _ => panic!("expected Done"),
    }
}

#[test]
fn tx_start_flush_registration_fails() {
    match tx_start_advance(true, TxStartStep::EnableFlush, -2) {
        TxStartStep::Done { result, unregister_flush } => {
            assert_eq!(result, Err(Error::Known(hackrf_error::HACKRF_ERROR_INVALID_PARAM)));
            assert!(unregister_flush);
        }
        _ => panic!("expected Done"),
    }
}

#[test]
fn tx_start_fails_after_flush_rolls_back() {
    match tx_start_advance(true, TxStartStep::StartTx, -6) {
        TxStartStep::Done { result, unregister_flush } => {
            assert_eq!(result, Err(Error::Known(hackrf_error::HACKRF_ERROR_BUSY)));
            assert!(unregister_flush);
        }
        _ => panic!("expected Done"),
    }
}

#[test]
fn sweep_list_flattens_pairs() {
    let flat = sweep_frequency_list(&[(1, 2), (100, 6000), (2400, 2500)]).unwrap();
    assert_eq!(flat, vec![1, 2, 100, 6000, 2400, 2500]);
}

#[test]
fn sweep_list_rejects_empty() {
    assert_eq!(
        sweep_frequency_list(&[]),
        Err(Error::Known(hackrf_error::HACKRF_ERROR_INVALID_PARAM))
    );
}

#[test]
fn sweep_list_rejects_too_many() {
    let ranges = [(0u16, 10u16); 11];
    assert_eq!(
        sweep_frequency_list(&ranges),
        Err(Error::Known(hackrf_error::HACKRF_ERROR_INVALID_PARAM))
    );
    let ranges = [(0u16, 10u16); 10];
    assert_eq!(sweep_frequency_list(&ranges).unwrap().len(), 20);
}

#[test]
fn operacake_boards_skip_invalid_slots() {
    assert_eq!(
        present_operacake_boards(&[0, 0xFF, 1, 0xFF, 0xFF, 7, 0xFF, 0xFF]),
        vec![0, 1, 7]
    );
    assert_eq!(present_operacake_boards(&[0xFF; 8]), Vec::<u8>::new());
    assert_eq!(present_operacake_boards(&[3, 2]), vec![3, 2]);
}

#[test]
fn device_count_clamps_negative() {
    assert_eq!(device_count(-1), 0);
    assert_eq!(device_count(0), 0);
    assert_eq!(device_count(3), 3);
}

#[test]
fn part_id_hex_format() {
    let raw = read_partid_serialno_t { part_id: [0xa000cb3c, 0x00574f5f], serial_no: [0; 4] };
    assert_eq!(raw.part_id_hex(), "a000cb3c00574f5f");
    assert_eq!(raw.part_id_hex(), format!("{:08x}{:08x}", raw.part_id[0], raw.part_id[1]));
}

#[test]
fn serial_hex_format() {
    let raw = read_partid_serialno_t {
        part_id: [0, 0],
        serial_no: [0x00000000, 0x00000000, 0x457863c8, 0x2b6f6e5f],
    };
    assert_eq!(raw.serial_hex(), "0000000000000000457863c82b6f6e5f");
    assert_eq!(raw.serial_hex().len(), 32);
}

#[test]
fn hex_round_trips() {
    for x in [0u32, 1, 0xf, 0x10, 0xdeadbeef, u32::MAX, 0x12345678] {
        let raw = read_partid_serialno_t { part_id: [x, 0], serial_no: [x, x, x, x] };
        let s = raw.part_id_hex();
        assert_eq!(u32::from_str_radix(&s[..8], 16).unwrap(), x);
        assert_eq!(s, format!("{:08x}{:08x}", x, 0));
        assert_eq!(raw.serial_hex(), format!("{:08x}", x).repeat(4));
    }
}

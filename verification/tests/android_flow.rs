use hackrf::android::{
    activity_class, is_hackrf_product, is_hackrf_vendor,
    set_android_activity_class, AndroidDevice, DeviceCollection, DeviceList,
    DEFAULT_ACTIVITY_CLASS, PERMISSION_POLL_ATTEMPTS,
};
use hackrf::error::Error;
use hackrf::hackrf_wrapper::{hackrf_error, hackrf_usb_board_id};

fn dev(fd: i32, pid: u16, serial: &str) -> AndroidDevice {
    AndroidDevice { fd, pid, serial: serial.to_string(), connected: true }
}

#[test]
fn activity_class_defaults_to_python_for_android() {
    let configured: Option<String> = None;
    assert_eq!(activity_class(&configured), "org/kivy/android/PythonActivity");
    assert_eq!(DEFAULT_ACTIVITY_CLASS, "org/kivy/android/PythonActivity");
}

#[test]
fn activity_class_first_setting_wins() {
    let mut configured: Option<String> = None;
    set_android_activity_class(&mut configured, "com/example/MainActivity");
    assert_eq!(activity_class(&configured), "com/example/MainActivity");
    set_android_activity_class(&mut configured, "com/example/Other");
    assert_eq!(activity_class(&configured), "com/example/MainActivity");
}

#[test]
fn hackrf_vendor_and_products() {
    assert!(is_hackrf_vendor(0x1d50));
    assert!(!is_hackrf_vendor(0x1d51));
    assert!(is_hackrf_product(0x604B));
    assert!(is_hackrf_product(0x6089));
    assert!(is_hackrf_product(0xCC15));
    assert!(!is_hackrf_product(0xFFFF));
    assert!(!is_hackrf_product(0));
}

#[test]
fn hackrf_products_are_the_recognized_usb_ids() {
    for pid in [0x604B, 0x6089, 0xCC15, 0xFFFF, 0x1234, 0] {
        let recognized = hackrf::codes::usb_board_id_from_raw(pid)
            != hackrf_usb_board_id::USB_BOARD_ID_INVALID;
        assert_eq!(is_hackrf_product(pid), recognized);
    }
}

#[test]
fn permission_poll_attempts() {
    assert_eq!(PERMISSION_POLL_ATTEMPTS, 100);
}

#[test]
fn device_from_connection() {
    assert!(AndroidDevice::from_connection(-1, 0x6089, String::new()).is_none());
    let d = AndroidDevice::from_connection(7, 0x6089, "abc".to_string()).unwrap();
    assert_eq!(d.fd, 7);
    assert_eq!(d.pid, 0x6089);
    assert_eq!(d.serial, "abc");
    assert!(d.connected);
    let d = AndroidDevice::from_connection(0, 0x1_6089, String::new()).unwrap();
    assert_eq!(d.pid, 0x6089);
}

#[test]
fn take_connection_once() {
    let mut d = dev(3, 0x6089, "s");
    assert!(d.take_connection());
    assert!(!d.take_connection());
    assert!(!d.connected);
}

#[test]
fn collection_with_limit_one_stops_after_first() {
    let mut c = DeviceCollection::new(Some(1));
    assert!(!c.is_full());
    c.add_ready(Some(dev(1, 0x6089, "a")));
    assert!(c.is_full());
    let found = c.finish();
    assert_eq!(found.len(), 1);
    assert_eq!(found[0].serial, "a");
}

#[test]
fn collection_counts_awaiting_devices() {
    let mut c = DeviceCollection::new(Some(2));
    c.add_awaiting();
    assert!(!c.is_full());
    c.add_ready(None);
    assert!(!c.is_full());
    c.add_ready(Some(dev(4, 0x604B, "b")));
    assert!(c.is_full());
    c.add_granted(Some(dev(5, 0xCC15, "c")));
    let found = c.finish();
    let serials: Vec<&str> = found.iter().map(|d| d.serial.as_str()).collect();
    assert_eq!(serials, vec!["b", "c"]);
}

#[test]
fn collection_without_limit_is_never_full() {
    let mut c = DeviceCollection::new(None);
    for i in 0..20 {
        c.add_ready(Some(dev(i, 0x6089, "x")));
        assert!(!c.is_full());
    }
    c.add_awaiting();
    c.add_granted(None);
    assert_eq!(c.finish().len(), 20);
}

#[test]
fn first_device_or_not_found() {
    let empty = DeviceList::new(Vec::new());
    assert_eq!(empty.first_device(), Err(Error::Known(hackrf_error::HACKRF_ERROR_NOT_FOUND)));
    let list = DeviceList::new(vec![dev(1, 0x6089, "a"), dev(2, 0x6089, "b")]);
    assert_eq!(list.first_device(), Ok(0));
}

#[test]
fn device_with_serial_finds_first_match() {
    let list = DeviceList::new(vec![dev(1, 0x6089, "a"), dev(2, 0x6089, "b"), dev(3, 0x6089, "b")]);
    assert_eq!(list.device_with_serial("b"), Ok(1));
    assert_eq!(list.device_with_serial("a"), Ok(0));
    assert_eq!(
        list.device_with_serial("c"),
        Err(Error::Known(hackrf_error::HACKRF_ERROR_NOT_FOUND))
    );
    let empty = DeviceList::new(Vec::new());
    assert_eq!(
        empty.device_with_serial("a"),
        Err(Error::Known(hackrf_error::HACKRF_ERROR_NOT_FOUND))
    );
}

#[test]
fn device_list_queries() {
    let list = DeviceList::new(vec![dev(10, 0x6089, "111"), dev(11, 0x1234, "222")]);
    assert_eq!(list.len(), 2);
    assert!(!list.is_empty());
    assert_eq!(list.serial_number(0), Some("111".to_string()));
    assert_eq!(list.serial_number(1), Some("222".to_string()));
    assert_eq!(list.serial_number(2), None);
    assert_eq!(list.usb_board_id(0), Some(hackrf_usb_board_id::USB_BOARD_ID_HACKRF_ONE));
    assert_eq!(list.usb_board_id(1), Some(hackrf_usb_board_id::USB_BOARD_ID_INVALID));
    assert_eq!(list.usb_board_id(2), None);
    assert_eq!(list.bus_sharing(0), None);
    assert_eq!(list.bus_sharing(5), None);
}

#[test]
fn empty_device_list() {
    let list = DeviceList::new(Vec::new());
    assert_eq!(list.len(), 0);
    assert!(list.is_empty());
    assert_eq!(list.serial_number(0), None);
}

#[test]
fn device_list_opens_each_entry_once() {
    let mut list = DeviceList::new(vec![dev(10, 0x6089, "111"), dev(11, 0x6089, "222")]);
    assert_eq!(list.open(1), Ok(11));
    assert_eq!(list.open(1), Err(Error::Known(hackrf_error::HACKRF_ERROR_BUSY)));
    assert_eq!(list.open(0), Ok(10));
    assert_eq!(list.open(0), Err(Error::Known(hackrf_error::HACKRF_ERROR_BUSY)));
    assert_eq!(list.len(), 2);
    assert_eq!(list.serial_number(1), Some("222".to_string()));
}

#[test]
fn device_list_open_out_of_range() {
    let mut list = DeviceList::new(vec![dev(10, 0x6089, "111")]);
    assert_eq!(list.open(1), Err(Error::Known(hackrf_error::HACKRF_ERROR_INVALID_PARAM)));
    assert_eq!(list.open(0), Ok(10));
}

#[test]
fn collection_with_zero_limit_still_looks_at_first_device() {
    let mut c = DeviceCollection::new(Some(0));
    assert!(c.is_full());
    c.add_ready(Some(dev(9, 0x6089, "z")));
    assert!(c.is_full());
    assert_eq!(c.finish().len(), 1);
}

#[test]
fn collection_skips_devices_that_fail_to_open() {
    let mut c = DeviceCollection::new(Some(1));
    c.add_ready(None);
    assert!(!c.is_full());
    c.add_awaiting();
    assert!(c.is_full());
    c.add_granted(None);
    assert!(c.finish().is_empty());
}

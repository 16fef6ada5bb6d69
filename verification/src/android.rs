//! The decisions of the Android USB flow: which activity supplies the
//! `Context`, which USB devices are HackRFs, how many are collected, and the
//! bookkeeping of a device list whose entries can each be opened once.
use vstd::prelude::*;

use crate::codes::is_usb_board_id_code;
use crate::error::Error;
use crate::hackrf_wrapper::{hackrf_error, hackrf_usb_board_id};

verus! {

/// Great Scott Gadgets USB vendor ID (shared by all HackRF variants).
pub const HACKRF_USB_VID: i32 = 0x1d50;

/// Valid HackRF USB product IDs: the recognized `hackrf_usb_board_id` values.
pub const HACKRF_USB_PIDS: [i32; 3] = [0x604B, 0x6089, 0xCC15];

/// Intent action of the USB permission request.
pub const PERMISSION_ACTION: &'static str = "libusb.android.USB_PERMISSION";

/// Interval between two checks of a pending USB permission.
pub const PERMISSION_POLL_INTERVAL_MS: u64 = 100;

/// How long a USB permission is waited for.
pub const PERMISSION_TIMEOUT_MS: u64 = 10_000;

/// How many times a pending USB permission is checked before giving up.
pub const PERMISSION_POLL_ATTEMPTS: u64 = PERMISSION_TIMEOUT_MS / PERMISSION_POLL_INTERVAL_MS;

/// python-for-android's default activity, used when nothing else is configured.
pub const DEFAULT_ACTIVITY_CLASS: &'static str = "org/kivy/android/PythonActivity";

/// Law: the USB ids, timing and names of the Android flow: the Great Scott
/// Gadgets vendor id, the three HackRF product ids, a ten-second permission
/// wait polled every 100 ms, libusb's permission action and
/// python-for-android's activity.
pub proof fn law_android_constants()
    ensures
        HACKRF_USB_VID == 0x1d50,
        HACKRF_USB_PIDS@ == seq![0x604Bi32, 0x6089i32, 0xCC15i32],
        PERMISSION_POLL_INTERVAL_MS == 100,
        PERMISSION_TIMEOUT_MS == 10_000,
        PERMISSION_POLL_ATTEMPTS == 100,
        PERMISSION_ACTION@ == "libusb.android.USB_PERMISSION"@,
        DEFAULT_ACTIVITY_CLASS@ == "org/kivy/android/PythonActivity"@,
{
    assert(HACKRF_USB_PIDS@ =~= seq![0x604Bi32, 0x6089i32, 0xCC15i32]);
}

/// The activity class the `Context` is looked up in after `configured` was
/// recorded.
pub open spec fn spec_activity_class(configured: Option<String>) -> Seq<char> {
    match configured {
        Some(s) => s@,
        None => DEFAULT_ACTIVITY_CLASS@,
    }
}

/// Records `class_path` as the activity class, unless one was already
/// recorded: the first call wins, later ones change nothing.
pub fn set_android_activity_class(configured: &mut Option<String>, class_path: &str)
    ensures
        *old(configured) is Some ==> *final(configured) == *old(configured),
        *old(configured) is None ==> (*final(configured) matches Some(s) && s@ == class_path@),
{
    if configured.is_none() {
        *configured = Some(class_path.to_owned());
    }
}

/// JNI name of the activity class whose static `mActivity` field holds the
/// `Context`: the recorded one, or python-for-android's default.
pub fn activity_class(configured: &Option<String>) -> (c: &str)
    ensures
        c@ == spec_activity_class(*configured),
{
    match configured {
        Some(s) => s.as_str(),
        None => DEFAULT_ACTIVITY_CLASS,
    }
}

/// Whether a USB vendor id is the HackRF vendor's.
pub fn is_hackrf_vendor(vendor_id: i32) -> (b: bool)
    ensures
        b == (vendor_id == HACKRF_USB_VID),
{
    vendor_id == HACKRF_USB_VID
}

/// Whether a USB product id is one of `HACKRF_USB_PIDS`.
pub fn is_hackrf_product(product_id: i32) -> (b: bool)
    ensures
        b == HACKRF_USB_PIDS@.contains(product_id),
{
    let mut i: usize = 0;
    while i < HACKRF_USB_PIDS.len()
        invariant
            i <= HACKRF_USB_PIDS@.len(),
            forall|j: int| 0 <= j < i ==> HACKRF_USB_PIDS@[j] != product_id,
        decreases HACKRF_USB_PIDS@.len() - i,
    {
        if HACKRF_USB_PIDS[i] == product_id {
            return true;
        }
        i = i + 1;
    }
    false
}

/// Law: the product ids taken for HackRFs are exactly the numbers of the
/// recognized USB board ids, `USB_BOARD_ID_INVALID` left out.
pub proof fn law_hackrf_products_are_usb_board_ids(product_id: i32)
    ensures
        HACKRF_USB_PIDS@.contains(product_id) <==> (is_usb_board_id_code(product_id as int)
            && product_id != hackrf_usb_board_id::USB_BOARD_ID_INVALID.code()),
{
    if is_usb_board_id_code(product_id as int) {
        let b = choose|b: hackrf_usb_board_id| b.code() == product_id;
        match b {
            hackrf_usb_board_id::USB_BOARD_ID_JAWBREAKER => assert(HACKRF_USB_PIDS@[0] == product_id),
            hackrf_usb_board_id::USB_BOARD_ID_HACKRF_ONE => assert(HACKRF_USB_PIDS@[1] == product_id),
            hackrf_usb_board_id::USB_BOARD_ID_RAD1O => assert(HACKRF_USB_PIDS@[2] == product_id),
            hackrf_usb_board_id::USB_BOARD_ID_INVALID => {},
        }
    }
    if HACKRF_USB_PIDS@.contains(product_id) {
        let j: int = choose|j: int| 0 <= j < 3 && HACKRF_USB_PIDS@[j] == product_id;
        if j == 0 {
            assert(hackrf_usb_board_id::USB_BOARD_ID_JAWBREAKER.code() == product_id);
        } else if j == 1 {
            assert(hackrf_usb_board_id::USB_BOARD_ID_HACKRF_ONE.code() == product_id);
        } else {
            assert(hackrf_usb_board_id::USB_BOARD_ID_RAD1O.code() == product_id);
        }
    }
}

/// A HackRF discovered through the Android `UsbManager`: the file descriptor
/// of its open connection, its USB product id and serial number, and whether
/// its connection is still held here (it is handed over once, when the
/// device is opened through libhackrf).
#[derive(Debug)]
pub struct AndroidDevice {
    pub fd: i32,
    pub pid: u16,
    pub serial: String,
    pub connected: bool,
}

impl AndroidDevice {
    /// The device behind a freshly opened connection whose descriptor is
    /// `fd`; `None` when the descriptor is negative (the connection is not
    /// usable). The product id keeps its low 16 bits.
    pub fn from_connection(fd: i32, product_id: i32, serial: String) -> (r: Option<
        AndroidDevice,
    >)
        ensures
            fd < 0 ==> r is None,
            fd >= 0 ==> r == Some(
                AndroidDevice { fd, pid: product_id as u16, serial, connected: true },
            ),
    {
        if fd < 0 {
            return None;
        }
        Some(AndroidDevice { fd, pid: product_id as u16, serial, connected: true })
    }

    /// Hands the connection over: reports whether it was still held, and
    /// leaves the device without it.
    pub fn take_connection(&mut self) -> (held: bool)
        ensures
            held == old(self).connected,
            *final(self) == (AndroidDevice { connected: false, ..*old(self) }),
    {
        let held = self.connected;
        self.connected = false;
        held
    }
}

/// The devices gathered while enumerating: those opened right away, and a
/// count of those still waiting for the user to grant USB permission.
/// Enumeration stops once `limit` devices are gathered (the first device is
/// always looked at).
pub struct DeviceCollection {
    limit: Option<usize>,
    ready: Vec<AndroidDevice>,
    awaiting: usize,
}

impl DeviceCollection {
    /// The cap on how many devices are gathered (`None`: no cap).
    pub closed spec fn spec_limit(&self) -> Option<usize> {
        self.limit
    }

    /// The devices gathered so far, in the order they were opened.
    pub closed spec fn spec_ready(&self) -> Seq<AndroidDevice> {
        self.ready@
    }

    /// How many permission requests are still outstanding.
    pub closed spec fn spec_awaiting(&self) -> nat {
        self.awaiting as nat
    }

    /// How many devices count against the limit.
    pub open spec fn spec_gathered(&self) -> nat {
        self.spec_ready().len() + self.spec_awaiting()
    }

    /// Whether the limit is reached.
    pub open spec fn spec_is_full(&self) -> bool {
        self.spec_limit() matches Some(l) && self.spec_gathered() >= l
    }

    /// The collection never holds more than its limit, or one device when the
    /// limit is zero.
    pub open spec fn wf(&self) -> bool {
        self.spec_limit() matches Some(l) ==> self.spec_gathered() <= if l == 0 {
            1
        } else {
            l as nat
        }
    }

    /// An empty collection gathering at most `limit` devices.
    pub fn new(limit: Option<usize>) -> (c: DeviceCollection)
        ensures
            c.wf(),
            c.spec_limit() == limit,
            c.spec_ready() == Seq::<AndroidDevice>::empty(),
            c.spec_awaiting() == 0,
    {
        DeviceCollection { limit, ready: Vec::new(), awaiting: 0 }
    }

    /// Whether enough devices are gathered to stop looking at more.
    #[verifier::when_used_as_spec(spec_is_full)]
    pub fn is_full(&self) -> (full: bool)
        ensures
            full == self.spec_is_full(),
    {
        match self.limit {
            Some(l) => self.ready.len() as u128 + self.awaiting as u128 >= l as u128,
            None => false,
        }
    }

    /// Records a device that already had permission: `opened` is the device
    /// if opening it succeeded, `None` if it could not be opened.
    pub fn add_ready(&mut self, opened: Option<AndroidDevice>)
        requires
            old(self).wf(),
            old(self).spec_gathered() == 0 || !old(self).spec_is_full(),
        ensures
            final(self).wf(),
            final(self).spec_limit() == old(self).spec_limit(),
            final(self).spec_awaiting() == old(self).spec_awaiting(),
            final(self).spec_ready() == match opened {
                Some(d) => old(self).spec_ready().push(d),
                None => old(self).spec_ready(),
            },
    {
        if let Some(d) = opened {
            self.ready.push(d);
        }
    }

    /// Records a device whose permission has been requested.
    pub fn add_awaiting(&mut self)
        requires
            old(self).wf(),
            old(self).spec_gathered() == 0 || !old(self).spec_is_full(),
            old(self).spec_awaiting() < usize::MAX,
        ensures
            final(self).wf(),
            final(self).spec_limit() == old(self).spec_limit(),
            final(self).spec_ready() == old(self).spec_ready(),
            final(self).spec_awaiting() == old(self).spec_awaiting() + 1,
    {
        self.awaiting = self.awaiting + 1;
    }

    /// Settles one outstanding permission request: `opened` is the device if
    /// permission was granted and opening it succeeded, `None` otherwise.
    pub fn add_granted(&mut self, opened: Option<AndroidDevice>)
        requires
            old(self).wf(),
            old(self).spec_awaiting() > 0,
        ensures
            final(self).wf(),
            final(self).spec_limit() == old(self).spec_limit(),
            final(self).spec_awaiting() == old(self).spec_awaiting() - 1,
            final(self).spec_ready() == match opened {
                Some(d) => old(self).spec_ready().push(d),
                None => old(self).spec_ready(),
            },
    {
        self.awaiting = self.awaiting - 1;
        if let Some(d) = opened {
            self.ready.push(d);
        }
    }

    /// The devices gathered, in the order they were opened. With a limit of
    /// `l >= 1`, never more than `l` of them.
    pub fn finish(self) -> (devices: Vec<AndroidDevice>)
        requires
            self.wf(),
        ensures
            devices@ == self.spec_ready(),
            self.spec_limit() matches Some(l) ==> devices@.len() <= if l == 0 {
                1
            } else {
                l as nat
            },
    {
        self.ready
    }
}

/// The outcome of opening entry `idx` of a device list holding `devices`:
/// the descriptor to open through libhackrf and the list after the entry has
/// handed its connection over; `HACKRF_ERROR_INVALID_PARAM` for an index past
/// the end and `HACKRF_ERROR_BUSY` for an entry that was already opened, the
/// list left as it was.
pub open spec fn spec_open(devices: Seq<AndroidDevice>, idx: int) -> (Result<i32, Error>, Seq<
    AndroidDevice,
>) {
    if !(0 <= idx < devices.len()) {
        (Err(Error::Known(hackrf_error::HACKRF_ERROR_INVALID_PARAM)), devices)
    } else if !devices[idx].connected {
        (Err(Error::Known(hackrf_error::HACKRF_ERROR_BUSY)), devices)
    } else {
        (Ok(devices[idx].fd), devices.update(idx, AndroidDevice { connected: false, ..devices[idx] }))
    }
}

/// The HackRFs found on Android, each openable once.
pub struct DeviceList {
    devices: Vec<AndroidDevice>,
}

impl View for DeviceList {
    type V = Seq<AndroidDevice>;

    closed spec fn view(&self) -> Seq<AndroidDevice> {
        self.devices@
    }
}

impl DeviceList {
    /// The list of the devices found by enumeration, in that order.
    pub fn new(devices: Vec<AndroidDevice>) -> (l: DeviceList)
        ensures
            l@ == devices@,
    {
        DeviceList { devices }
    }

    /// Number of connected devices.
    pub fn len(&self) -> (n: usize)
        ensures
            n == self@.len(),
    {
        self.devices.len()
    }

    /// `true` if no devices are connected.
    pub fn is_empty(&self) -> (b: bool)
        ensures
            b == (self@.len() == 0),
    {
        self.devices.len() == 0
    }

    /// Serial number of the device at `idx`, or `None` if out of range.
    pub fn serial_number(&self, idx: usize) -> (r: Option<String>)
        ensures
            idx < self@.len() ==> (r matches Some(s) && s@ == self@[idx as int].serial@),
            idx >= self@.len() ==> r is None,
    {
        if idx < self.devices.len() {
            Some(self.devices[idx].serial.clone())
        } else {
            None
        }
    }

    /// USB product identifier of the device at `idx`, or `None` if out of
    /// range.
    pub fn usb_board_id(&self, idx: usize) -> (r: Option<hackrf_usb_board_id>)
        ensures
            idx < self@.len() ==> (r matches Some(b) && (forall|c: hackrf_usb_board_id|
                c.code() == self@[idx as int].pid ==> b == c) && (!is_usb_board_id_code(
                self@[idx as int].pid as int,
            ) ==> b == hackrf_usb_board_id::USB_BOARD_ID_INVALID)),
            idx >= self@.len() ==> r is None,
    {
        if idx < self.devices.len() {
            Some(crate::codes::usb_board_id_from_raw(self.devices[idx].pid as i32))
        } else {
            None
        }
    }

    /// Not available on Android (the platform exposes file descriptors, not
    /// USB bus topology); always `None`.
    pub fn bus_sharing(&self, idx: usize) -> (r: Option<bool>)
        ensures
            r is None,
    {
        None
    }

    /// The index of the entry to open when any will do: the first one, or
    /// `HACKRF_ERROR_NOT_FOUND` when the list is empty.
    pub fn first_device(&self) -> (r: Result<usize, Error>)
        ensures
            self@.len() == 0 ==> r == Err::<usize, Error>(
                Error::Known(hackrf_error::HACKRF_ERROR_NOT_FOUND),
            ),
            self@.len() > 0 ==> r == Ok::<usize, Error>(0),
    {
        if self.devices.len() == 0 {
            Err(Error::Known(hackrf_error::HACKRF_ERROR_NOT_FOUND))
        } else {
            Ok(0)
        }
    }

    /// The index of the first entry whose serial number is `serial`, or
    /// `HACKRF_ERROR_NOT_FOUND` when no entry has it.
    pub fn device_with_serial(&self, serial: &str) -> (r: Result<usize, Error>)
        ensures
            match r {
                Ok(i) => i < self@.len() && self@[i as int].serial@ == serial@ && forall|j: int|
                    0 <= j < i ==> self@[j].serial@ != serial@,
                Err(e) => e == Error::Known(hackrf_error::HACKRF_ERROR_NOT_FOUND) && forall|j: int|
                    0 <= j < self@.len() ==> self@[j].serial@ != serial@,
            },
    {
        let wanted = serial.to_owned();
        let mut i: usize = 0;
        while i < self.devices.len()
            invariant
                i <= self.devices@.len(),
                wanted@ == serial@,
                forall|j: int| 0 <= j < i ==> self.devices@[j].serial@ != serial@,
            decreases self.devices@.len() - i,
        {
            if self.devices[i].serial == wanted {
                return Ok(i);
            }
            i = i + 1;
        }
        Err(Error::Known(hackrf_error::HACKRF_ERROR_NOT_FOUND))
    }

    /// Opens the entry at `idx`: hands its connection over and returns the
    /// file descriptor to open through libhackrf. An index past the end fails
    /// with `HACKRF_ERROR_INVALID_PARAM`, an entry already opened with
    /// `HACKRF_ERROR_BUSY`.
    pub fn open(&mut self, idx: usize) -> (r: Result<i32, Error>)
        ensures
            (r, final(self)@) == spec_open(old(self)@, idx as int),
    {
        if idx >= self.devices.len() {
            return Err(Error::Known(hackrf_error::HACKRF_ERROR_INVALID_PARAM));
        }
        if !self.devices[idx].connected {
            return Err(Error::Known(hackrf_error::HACKRF_ERROR_BUSY));
        }
        let mut device = self.devices.remove(idx);
        device.take_connection();
        let fd: i32 = device.fd;
        self.devices.insert(idx, device);
        assert(self.devices@ =~= old(self).devices@.update(
            idx as int,
            AndroidDevice { connected: false, ..old(self).devices@[idx as int] },
        ));
        Ok(fd)
    }
}

/// Law: an entry of a device list opens at most once: right after it was
/// opened, opening it again fails with `HACKRF_ERROR_BUSY`, and opening
/// never changes how many entries there are or any other entry.
pub proof fn law_open_at_most_once(devices: Seq<AndroidDevice>, idx: int, other: int)
    requires
        0 <= idx < devices.len(),
        devices[idx].connected,
        0 <= other < devices.len(),
        other != idx,
    ensures
        spec_open(devices, idx).0 == Ok::<i32, Error>(devices[idx].fd),
        spec_open(spec_open(devices, idx).1, idx).0 == Err::<i32, Error>(
            Error::Known(hackrf_error::HACKRF_ERROR_BUSY),
        ),
        spec_open(devices, idx).1.len() == devices.len(),
        spec_open(devices, idx).1[other] == devices[other],
{
}

} // verus!

use vstd::prelude::*;

verus! {

// ---------------------------------------------------------------------
// Constants
// ---------------------------------------------------------------------

pub const SAMPLES_PER_BLOCK: usize = 8192;
pub const BYTES_PER_BLOCK: usize = 16384;
pub const MAX_SWEEP_RANGES: usize = 10;

pub const HACKRF_OPERACAKE_ADDRESS_INVALID: u8 = 0xFF;
pub const HACKRF_OPERACAKE_MAX_BOARDS: usize = 8;
pub const HACKRF_OPERACAKE_MAX_DWELL_TIMES: usize = 16;
pub const HACKRF_OPERACAKE_MAX_FREQ_RANGES: usize = 8;

pub const HACKRF_BOARD_REV_GSG: u8 = 0x80;

pub const HACKRF_PLATFORM_JAWBREAKER: u32 = 1;
pub const HACKRF_PLATFORM_HACKRF1_OG: u32 = 2;
pub const HACKRF_PLATFORM_RAD1O: u32 = 4;
pub const HACKRF_PLATFORM_HACKRF1_R9: u32 = 8;
pub const HACKRF_PLATFORM_PRALINE: u32 = 16;

// ---------------------------------------------------------------------
// Enums
// ---------------------------------------------------------------------

/// Status codes returned by libhackrf calls.
#[derive(Debug, Clone, Copy, PartialEq, Eq, Structural)]
pub enum hackrf_error {
    HACKRF_SUCCESS,
    HACKRF_TRUE,
    HACKRF_ERROR_INVALID_PARAM,
    HACKRF_ERROR_NOT_FOUND,
    HACKRF_ERROR_BUSY,
    HACKRF_ERROR_NO_MEM,
    HACKRF_ERROR_LIBUSB,
    HACKRF_ERROR_THREAD,
    HACKRF_ERROR_STREAMING_THREAD_ERR,
    HACKRF_ERROR_STREAMING_STOPPED,
    HACKRF_ERROR_STREAMING_EXIT_CALLED,
    HACKRF_ERROR_USB_API_VERSION,
    HACKRF_ERROR_NOT_LAST_DEVICE,
    HACKRF_ERROR_OTHER,
}

impl hackrf_error {
    /// The numeric value libhackrf uses for this variant.
    pub open spec fn spec_code(self) -> i32 {
        match self {
            hackrf_error::HACKRF_SUCCESS => 0i32,
            hackrf_error::HACKRF_TRUE => 1i32,
            hackrf_error::HACKRF_ERROR_INVALID_PARAM => -2i32,
            hackrf_error::HACKRF_ERROR_NOT_FOUND => -5i32,
            hackrf_error::HACKRF_ERROR_BUSY => -6i32,
            hackrf_error::HACKRF_ERROR_NO_MEM => -11i32,
            hackrf_error::HACKRF_ERROR_LIBUSB => -1000i32,
            hackrf_error::HACKRF_ERROR_THREAD => -1001i32,
            hackrf_error::HACKRF_ERROR_STREAMING_THREAD_ERR => -1002i32,
            hackrf_error::HACKRF_ERROR_STREAMING_STOPPED => -1003i32,
            hackrf_error::HACKRF_ERROR_STREAMING_EXIT_CALLED => -1004i32,
            hackrf_error::HACKRF_ERROR_USB_API_VERSION => -1005i32,
            hackrf_error::HACKRF_ERROR_NOT_LAST_DEVICE => -2000i32,
            hackrf_error::HACKRF_ERROR_OTHER => -9999i32,
        }
    }

    /// The numeric value libhackrf uses for this variant.
    #[verifier::when_used_as_spec(spec_code)]
    pub fn code(self) -> (c: i32)
        ensures
            c == self.spec_code(),
    {
        match self {
            hackrf_error::HACKRF_SUCCESS => 0,
            hackrf_error::HACKRF_TRUE => 1,
            hackrf_error::HACKRF_ERROR_INVALID_PARAM => -2,
            hackrf_error::HACKRF_ERROR_NOT_FOUND => -5,
            hackrf_error::HACKRF_ERROR_BUSY => -6,
            hackrf_error::HACKRF_ERROR_NO_MEM => -11,
            hackrf_error::HACKRF_ERROR_LIBUSB => -1000,
            hackrf_error::HACKRF_ERROR_THREAD => -1001,
            hackrf_error::HACKRF_ERROR_STREAMING_THREAD_ERR => -1002,
            hackrf_error::HACKRF_ERROR_STREAMING_STOPPED => -1003,
            hackrf_error::HACKRF_ERROR_STREAMING_EXIT_CALLED => -1004,
            hackrf_error::HACKRF_ERROR_USB_API_VERSION => -1005,
            hackrf_error::HACKRF_ERROR_NOT_LAST_DEVICE => -2000,
            hackrf_error::HACKRF_ERROR_OTHER => -9999,
        }
    }
}

/// Board type reported by the firmware.
#[derive(Debug, Clone, Copy, PartialEq, Eq, Structural)]
pub enum hackrf_board_id {
    BOARD_ID_JELLYBEAN,
    BOARD_ID_JAWBREAKER,
    BOARD_ID_HACKRF1_OG,
    BOARD_ID_RAD1O,
    BOARD_ID_HACKRF1_R9,
    BOARD_ID_PRALINE,
    BOARD_ID_UNRECOGNIZED,
    BOARD_ID_UNDETECTED,
}

impl hackrf_board_id {
    /// The numeric value libhackrf uses for this variant.
    pub open spec fn spec_code(self) -> i32 {
        match self {
            hackrf_board_id::BOARD_ID_JELLYBEAN => 0i32,
            hackrf_board_id::BOARD_ID_JAWBREAKER => 1i32,
            hackrf_board_id::BOARD_ID_HACKRF1_OG => 2i32,
            hackrf_board_id::BOARD_ID_RAD1O => 3i32,
            hackrf_board_id::BOARD_ID_HACKRF1_R9 => 4i32,
            hackrf_board_id::BOARD_ID_PRALINE => 5i32,
            hackrf_board_id::BOARD_ID_UNRECOGNIZED => 0xFEi32,
            hackrf_board_id::BOARD_ID_UNDETECTED => 0xFFi32,
        }
    }

    /// The numeric value libhackrf uses for this variant.
    #[verifier::when_used_as_spec(spec_code)]
    pub fn code(self) -> (c: i32)
        ensures
            c == self.spec_code(),
    {
        match self {
            hackrf_board_id::BOARD_ID_JELLYBEAN => 0,
            hackrf_board_id::BOARD_ID_JAWBREAKER => 1,
            hackrf_board_id::BOARD_ID_HACKRF1_OG => 2,
            hackrf_board_id::BOARD_ID_RAD1O => 3,
            hackrf_board_id::BOARD_ID_HACKRF1_R9 => 4,
            hackrf_board_id::BOARD_ID_PRALINE => 5,
            hackrf_board_id::BOARD_ID_UNRECOGNIZED => 0xFE,
            hackrf_board_id::BOARD_ID_UNDETECTED => 0xFF,
        }
    }
}

/// Hardware revision reported by the firmware.
#[derive(Debug, Clone, Copy, PartialEq, Eq, Structural)]
pub enum hackrf_board_rev {
    BOARD_REV_HACKRF1_OLD,
    BOARD_REV_HACKRF1_R6,
    BOARD_REV_HACKRF1_R7,
    BOARD_REV_HACKRF1_R8,
    BOARD_REV_HACKRF1_R9,
    BOARD_REV_HACKRF1_R10,
    BOARD_REV_PRALINE_R0_1,
    BOARD_REV_PRALINE_R0_2,
    BOARD_REV_PRALINE_R0_3,
    BOARD_REV_PRALINE_R1_0,
    BOARD_REV_PRALINE_R1_1,
    BOARD_REV_PRALINE_R1_2,
    BOARD_REV_GSG_HACKRF1_R6,
    BOARD_REV_GSG_HACKRF1_R7,
    BOARD_REV_GSG_HACKRF1_R8,
    BOARD_REV_GSG_HACKRF1_R9,
    BOARD_REV_GSG_HACKRF1_R10,
    BOARD_REV_GSG_PRALINE_R0_1,
    BOARD_REV_GSG_PRALINE_R0_2,
    BOARD_REV_GSG_PRALINE_R0_3,
    BOARD_REV_GSG_PRALINE_R1_0,
    BOARD_REV_GSG_PRALINE_R1_1,
    BOARD_REV_GSG_PRALINE_R1_2,
    BOARD_REV_UNRECOGNIZED,
    BOARD_REV_UNDETECTED,
}

impl hackrf_board_rev {
    /// The numeric value libhackrf uses for this variant.
    pub open spec fn spec_code(self) -> i32 {
        match self {
            hackrf_board_rev::BOARD_REV_HACKRF1_OLD => 0i32,
            hackrf_board_rev::BOARD_REV_HACKRF1_R6 => 1i32,
            hackrf_board_rev::BOARD_REV_HACKRF1_R7 => 2i32,
            hackrf_board_rev::BOARD_REV_HACKRF1_R8 => 3i32,
            hackrf_board_rev::BOARD_REV_HACKRF1_R9 => 4i32,
            hackrf_board_rev::BOARD_REV_HACKRF1_R10 => 5i32,
            hackrf_board_rev::BOARD_REV_PRALINE_R0_1 => 6i32,
            hackrf_board_rev::BOARD_REV_PRALINE_R0_2 => 7i32,
            hackrf_board_rev::BOARD_REV_PRALINE_R0_3 => 8i32,
            hackrf_board_rev::BOARD_REV_PRALINE_R1_0 => 9i32,
            hackrf_board_rev::BOARD_REV_PRALINE_R1_1 => 10i32,
            hackrf_board_rev::BOARD_REV_PRALINE_R1_2 => 11i32,
            hackrf_board_rev::BOARD_REV_GSG_HACKRF1_R6 => 0x81i32,
            hackrf_board_rev::BOARD_REV_GSG_HACKRF1_R7 => 0x82i32,
            hackrf_board_rev::BOARD_REV_GSG_HACKRF1_R8 => 0x83i32,
            hackrf_board_rev::BOARD_REV_GSG_HACKRF1_R9 => 0x84i32,
            hackrf_board_rev::BOARD_REV_GSG_HACKRF1_R10 => 0x85i32,
            hackrf_board_rev::BOARD_REV_GSG_PRALINE_R0_1 => 0x86i32,
            hackrf_board_rev::BOARD_REV_GSG_PRALINE_R0_2 => 0x87i32,
            hackrf_board_rev::BOARD_REV_GSG_PRALINE_R0_3 => 0x88i32,
            hackrf_board_rev::BOARD_REV_GSG_PRALINE_R1_0 => 0x89i32,
            hackrf_board_rev::BOARD_REV_GSG_PRALINE_R1_1 => 0x8ai32,
            hackrf_board_rev::BOARD_REV_GSG_PRALINE_R1_2 => 0x8bi32,
            hackrf_board_rev::BOARD_REV_UNRECOGNIZED => 0xFEi32,
            hackrf_board_rev::BOARD_REV_UNDETECTED => 0xFFi32,
        }
    }

    /// The numeric value libhackrf uses for this variant.
    #[verifier::when_used_as_spec(spec_code)]
    pub fn code(self) -> (c: i32)
        ensures
            c == self.spec_code(),
    {
        match self {
            hackrf_board_rev::BOARD_REV_HACKRF1_OLD => 0,
            hackrf_board_rev::BOARD_REV_HACKRF1_R6 => 1,
            hackrf_board_rev::BOARD_REV_HACKRF1_R7 => 2,
            hackrf_board_rev::BOARD_REV_HACKRF1_R8 => 3,
            hackrf_board_rev::BOARD_REV_HACKRF1_R9 => 4,
            hackrf_board_rev::BOARD_REV_HACKRF1_R10 => 5,
            hackrf_board_rev::BOARD_REV_PRALINE_R0_1 => 6,
            hackrf_board_rev::BOARD_REV_PRALINE_R0_2 => 7,
            hackrf_board_rev::BOARD_REV_PRALINE_R0_3 => 8,
            hackrf_board_rev::BOARD_REV_PRALINE_R1_0 => 9,
            hackrf_board_rev::BOARD_REV_PRALINE_R1_1 => 10,
            hackrf_board_rev::BOARD_REV_PRALINE_R1_2 => 11,
            hackrf_board_rev::BOARD_REV_GSG_HACKRF1_R6 => 0x81,
            hackrf_board_rev::BOARD_REV_GSG_HACKRF1_R7 => 0x82,
            hackrf_board_rev::BOARD_REV_GSG_HACKRF1_R8 => 0x83,
            hackrf_board_rev::BOARD_REV_GSG_HACKRF1_R9 => 0x84,
            hackrf_board_rev::BOARD_REV_GSG_HACKRF1_R10 => 0x85,
            hackrf_board_rev::BOARD_REV_GSG_PRALINE_R0_1 => 0x86,
            hackrf_board_rev::BOARD_REV_GSG_PRALINE_R0_2 => 0x87,
            hackrf_board_rev::BOARD_REV_GSG_PRALINE_R0_3 => 0x88,
            hackrf_board_rev::BOARD_REV_GSG_PRALINE_R1_0 => 0x89,
            hackrf_board_rev::BOARD_REV_GSG_PRALINE_R1_1 => 0x8a,
            hackrf_board_rev::BOARD_REV_GSG_PRALINE_R1_2 => 0x8b,
            hackrf_board_rev::BOARD_REV_UNRECOGNIZED => 0xFE,
            hackrf_board_rev::BOARD_REV_UNDETECTED => 0xFF,
        }
    }
}

/// USB product identifier of a HackRF variant.
#[derive(Debug, Clone, Copy, PartialEq, Eq, Structural)]
pub enum hackrf_usb_board_id {
    USB_BOARD_ID_JAWBREAKER,
    USB_BOARD_ID_HACKRF_ONE,
    USB_BOARD_ID_RAD1O,
    USB_BOARD_ID_INVALID,
}

impl hackrf_usb_board_id {
    /// The numeric value libhackrf uses for this variant.
    pub open spec fn spec_code(self) -> i32 {
        match self {
            hackrf_usb_board_id::USB_BOARD_ID_JAWBREAKER => 0x604Bi32,
            hackrf_usb_board_id::USB_BOARD_ID_HACKRF_ONE => 0x6089i32,
            hackrf_usb_board_id::USB_BOARD_ID_RAD1O => 0xCC15i32,
            hackrf_usb_board_id::USB_BOARD_ID_INVALID => 0xFFFFi32,
        }
    }

    /// The numeric value libhackrf uses for this variant.
    #[verifier::when_used_as_spec(spec_code)]
    pub fn code(self) -> (c: i32)
        ensures
            c == self.spec_code(),
    {
        match self {
            hackrf_usb_board_id::USB_BOARD_ID_JAWBREAKER => 0x604B,
            hackrf_usb_board_id::USB_BOARD_ID_HACKRF_ONE => 0x6089,
            hackrf_usb_board_id::USB_BOARD_ID_RAD1O => 0xCC15,
            hackrf_usb_board_id::USB_BOARD_ID_INVALID => 0xFFFF,
        }
    }
}

/// RF path filter selected by an explicit tuning.
#[derive(Debug, Clone, Copy, PartialEq, Eq, Structural)]
pub enum rf_path_filter {
    RF_PATH_FILTER_BYPASS,
    RF_PATH_FILTER_LOW_PASS,
    RF_PATH_FILTER_HIGH_PASS,
}

impl rf_path_filter {
    /// The numeric value libhackrf uses for this variant.
    pub open spec fn spec_code(self) -> i32 {
        match self {
            rf_path_filter::RF_PATH_FILTER_BYPASS => 0i32,
            rf_path_filter::RF_PATH_FILTER_LOW_PASS => 1i32,
            rf_path_filter::RF_PATH_FILTER_HIGH_PASS => 2i32,
        }
    }

    /// The numeric value libhackrf uses for this variant.
    #[verifier::when_used_as_spec(spec_code)]
    pub fn code(self) -> (c: i32)
        ensures
            c == self.spec_code(),
    {
        match self {
            rf_path_filter::RF_PATH_FILTER_BYPASS => 0,
            rf_path_filter::RF_PATH_FILTER_LOW_PASS => 1,
            rf_path_filter::RF_PATH_FILTER_HIGH_PASS => 2,
        }
    }
}

/// Antenna ports of an Opera Cake add-on board.
#[derive(Debug, Clone, Copy, PartialEq, Eq, Structural)]
pub enum operacake_ports {
    OPERACAKE_PA1,
    OPERACAKE_PA2,
    OPERACAKE_PA3,
    OPERACAKE_PA4,
    OPERACAKE_PB1,
    OPERACAKE_PB2,
    OPERACAKE_PB3,
    OPERACAKE_PB4,
}

impl operacake_ports {
    /// The numeric value libhackrf uses for this variant.
    pub open spec fn spec_code(self) -> i32 {
        match self {
            operacake_ports::OPERACAKE_PA1 => 0i32,
            operacake_ports::OPERACAKE_PA2 => 1i32,
            operacake_ports::OPERACAKE_PA3 => 2i32,
            operacake_ports::OPERACAKE_PA4 => 3i32,
            operacake_ports::OPERACAKE_PB1 => 4i32,
            operacake_ports::OPERACAKE_PB2 => 5i32,
            operacake_ports::OPERACAKE_PB3 => 6i32,
            operacake_ports::OPERACAKE_PB4 => 7i32,
        }
    }

    /// The numeric value libhackrf uses for this variant.
    #[verifier::when_used_as_spec(spec_code)]
    pub fn code(self) -> (c: i32)
        ensures
            c == self.spec_code(),
    {
        match self {
            operacake_ports::OPERACAKE_PA1 => 0,
            operacake_ports::OPERACAKE_PA2 => 1,
            operacake_ports::OPERACAKE_PA3 => 2,
            operacake_ports::OPERACAKE_PA4 => 3,
            operacake_ports::OPERACAKE_PB1 => 4,
            operacake_ports::OPERACAKE_PB2 => 5,
            operacake_ports::OPERACAKE_PB3 => 6,
            operacake_ports::OPERACAKE_PB4 => 7,
        }
    }
}

/// Port-switching mode of an Opera Cake board.
#[derive(Debug, Clone, Copy, PartialEq, Eq, Structural)]
pub enum operacake_switching_mode {
    OPERACAKE_MODE_MANUAL,
    OPERACAKE_MODE_FREQUENCY,
    OPERACAKE_MODE_TIME,
}

impl operacake_switching_mode {
    /// The numeric value libhackrf uses for this variant.
    pub open spec fn spec_code(self) -> i32 {
        match self {
            operacake_switching_mode::OPERACAKE_MODE_MANUAL => 0i32,
            operacake_switching_mode::OPERACAKE_MODE_FREQUENCY => 1i32,
            operacake_switching_mode::OPERACAKE_MODE_TIME => 2i32,
        }
    }

    /// The numeric value libhackrf uses for this variant.
    #[verifier::when_used_as_spec(spec_code)]
    pub fn code(self) -> (c: i32)
        ensures
            c == self.spec_code(),
    {
        match self {
            operacake_switching_mode::OPERACAKE_MODE_MANUAL => 0,
            operacake_switching_mode::OPERACAKE_MODE_FREQUENCY => 1,
            operacake_switching_mode::OPERACAKE_MODE_TIME => 2,
        }
    }
}

/// Order in which a sweep visits its tuning steps.
#[derive(Debug, Clone, Copy, PartialEq, Eq, Structural)]
pub enum sweep_style {
    LINEAR,
    INTERLEAVED,
}

impl sweep_style {
    /// The numeric value libhackrf uses for this variant.
    pub open spec fn spec_code(self) -> i32 {
        match self {
            sweep_style::LINEAR => 0i32,
            sweep_style::INTERLEAVED => 1i32,
        }
    }

    /// The numeric value libhackrf uses for this variant.
    #[verifier::when_used_as_spec(spec_code)]
    pub fn code(self) -> (c: i32)
        ensures
            c == self.spec_code(),
    {
        match self {
            sweep_style::LINEAR => 0,
            sweep_style::INTERLEAVED => 1,
        }
    }
}

/// Signal routed to the HackRF Pro SMA connector P1.
#[derive(Debug, Clone, Copy, PartialEq, Eq, Structural)]
pub enum p1_ctrl_signal {
    P1_SIGNAL_TRIGGER_IN,
    P1_SIGNAL_AUX_CLK1,
    P1_SIGNAL_CLKIN,
    P1_SIGNAL_TRIGGER_OUT,
    P1_SIGNAL_P22_CLKIN,
    P1_SIGNAL_P2_5,
    P1_SIGNAL_NC,
    P1_SIGNAL_AUX_CLK2,
}

impl p1_ctrl_signal {
    /// The numeric value libhackrf uses for this variant.
    pub open spec fn spec_code(self) -> i32 {
        match self {
            p1_ctrl_signal::P1_SIGNAL_TRIGGER_IN => 0i32,
            p1_ctrl_signal::P1_SIGNAL_AUX_CLK1 => 1i32,
            p1_ctrl_signal::P1_SIGNAL_CLKIN => 2i32,
            p1_ctrl_signal::P1_SIGNAL_TRIGGER_OUT => 3i32,
            p1_ctrl_signal::P1_SIGNAL_P22_CLKIN => 4i32,
            p1_ctrl_signal::P1_SIGNAL_P2_5 => 5i32,
            p1_ctrl_signal::P1_SIGNAL_NC => 6i32,
            p1_ctrl_signal::P1_SIGNAL_AUX_CLK2 => 7i32,
        }
    }

    /// The numeric value libhackrf uses for this variant.
    #[verifier::when_used_as_spec(spec_code)]
    pub fn code(self) -> (c: i32)
        ensures
            c == self.spec_code(),
    {
        match self {
            p1_ctrl_signal::P1_SIGNAL_TRIGGER_IN => 0,
            p1_ctrl_signal::P1_SIGNAL_AUX_CLK1 => 1,
            p1_ctrl_signal::P1_SIGNAL_CLKIN => 2,
            p1_ctrl_signal::P1_SIGNAL_TRIGGER_OUT => 3,
            p1_ctrl_signal::P1_SIGNAL_P22_CLKIN => 4,
            p1_ctrl_signal::P1_SIGNAL_P2_5 => 5,
            p1_ctrl_signal::P1_SIGNAL_NC => 6,
            p1_ctrl_signal::P1_SIGNAL_AUX_CLK2 => 7,
        }
    }
}

/// Signal routed to the HackRF Pro SMA connector P2.
#[derive(Debug, Clone, Copy, PartialEq, Eq, Structural)]
pub enum p2_ctrl_signal {
    P2_SIGNAL_CLK3,
    P2_SIGNAL_TRIGGER_IN,
    P2_SIGNAL_TRIGGER_OUT,
}

impl p2_ctrl_signal {
    /// The numeric value libhackrf uses for this variant.
    pub open spec fn spec_code(self) -> i32 {
        match self {
            p2_ctrl_signal::P2_SIGNAL_CLK3 => 0i32,
            p2_ctrl_signal::P2_SIGNAL_TRIGGER_IN => 2i32,
            p2_ctrl_signal::P2_SIGNAL_TRIGGER_OUT => 3i32,
        }
    }

    /// The numeric value libhackrf uses for this variant.
    #[verifier::when_used_as_spec(spec_code)]
    pub fn code(self) -> (c: i32)
        ensures
            c == self.spec_code(),
    {
        match self {
            p2_ctrl_signal::P2_SIGNAL_CLK3 => 0,
            p2_ctrl_signal::P2_SIGNAL_TRIGGER_IN => 2,
            p2_ctrl_signal::P2_SIGNAL_TRIGGER_OUT => 3,
        }
    }
}

/// Clock input selected for the HackRF Pro CLKIN.
#[derive(Debug, Clone, Copy, PartialEq, Eq, Structural)]
pub enum clkin_ctrl_signal {
    CLKIN_SIGNAL_P1,
    CLKIN_SIGNAL_P22,
}

impl clkin_ctrl_signal {
    /// The numeric value libhackrf uses for this variant.
    pub open spec fn spec_code(self) -> i32 {
        match self {
            clkin_ctrl_signal::CLKIN_SIGNAL_P1 => 0i32,
            clkin_ctrl_signal::CLKIN_SIGNAL_P22 => 1i32,
        }
    }

    /// The numeric value libhackrf uses for this variant.
    #[verifier::when_used_as_spec(spec_code)]
    pub fn code(self) -> (c: i32)
        ensures
            c == self.spec_code(),
    {
        match self {
            clkin_ctrl_signal::CLKIN_SIGNAL_P1 => 0,
            clkin_ctrl_signal::CLKIN_SIGNAL_P22 => 1,
        }
    }
}

/// Deprecated alias, provided for API compatibility.
pub const BOARD_ID_HACKRF_ONE: hackrf_board_id = hackrf_board_id::BOARD_ID_HACKRF1_OG;
/// Deprecated alias, provided for API compatibility.
pub const BOARD_ID_INVALID: hackrf_board_id = hackrf_board_id::BOARD_ID_UNDETECTED;

// ---------------------------------------------------------------------
// Structs
// ---------------------------------------------------------------------

/// Part ID and serial number words read from the board.
#[derive(Clone, Copy)]
pub struct read_partid_serialno_t {
    pub part_id: [u32; 2],
    pub serial_no: [u32; 4],
}

/// One dwell-time entry of an Opera Cake time-switching schedule.
#[derive(Clone, Copy)]
pub struct hackrf_operacake_dwell_time {
    pub dwell: u32,
    pub port: u8,
}

/// One frequency range (in MHz) of an Opera Cake frequency-switching table.
#[derive(Clone, Copy)]
pub struct hackrf_operacake_freq_range {
    pub freq_min: u16,
    pub freq_max: u16,
    pub port: u8,
}

/// One bias-tee setting of a user bias-tee request.
#[derive(Clone, Copy)]
pub struct hackrf_bool_user_settting {
    pub do_update: bool,
    pub change_on_mode_entry: bool,
    pub enabled: bool,
}

/// Bias-tee behaviour requested for TX, RX and OFF modes.
#[derive(Clone, Copy)]
pub struct hackrf_bias_t_user_settting_req {
    pub tx: hackrf_bool_user_settting,
    pub rx: hackrf_bool_user_settting,
    pub off: hackrf_bool_user_settting,
}

// ---------------------------------------------------------------------
// libhackrf's numbers
// ---------------------------------------------------------------------

/// Law: every `hackrf_error` variant carries libhackrf's number for it.
pub proof fn law_hackrf_error_codes()
    ensures
        hackrf_error::HACKRF_SUCCESS.code() == 0,
        hackrf_error::HACKRF_TRUE.code() == 1,
        hackrf_error::HACKRF_ERROR_INVALID_PARAM.code() == -2,
        hackrf_error::HACKRF_ERROR_NOT_FOUND.code() == -5,
        hackrf_error::HACKRF_ERROR_BUSY.code() == -6,
        hackrf_error::HACKRF_ERROR_NO_MEM.code() == -11,
        hackrf_error::HACKRF_ERROR_LIBUSB.code() == -1000,
        hackrf_error::HACKRF_ERROR_THREAD.code() == -1001,
        hackrf_error::HACKRF_ERROR_STREAMING_THREAD_ERR.code() == -1002,
        hackrf_error::HACKRF_ERROR_STREAMING_STOPPED.code() == -1003,
        hackrf_error::HACKRF_ERROR_STREAMING_EXIT_CALLED.code() == -1004,
        hackrf_error::HACKRF_ERROR_USB_API_VERSION.code() == -1005,
        hackrf_error::HACKRF_ERROR_NOT_LAST_DEVICE.code() == -2000,
        hackrf_error::HACKRF_ERROR_OTHER.code() == -9999,
{
}

/// Law: every `hackrf_board_id` variant carries libhackrf's number for it.
pub proof fn law_hackrf_board_id_codes()
    ensures
        hackrf_board_id::BOARD_ID_JELLYBEAN.code() == 0,
        hackrf_board_id::BOARD_ID_JAWBREAKER.code() == 1,
        hackrf_board_id::BOARD_ID_HACKRF1_OG.code() == 2,
        hackrf_board_id::BOARD_ID_RAD1O.code() == 3,
        hackrf_board_id::BOARD_ID_HACKRF1_R9.code() == 4,
        hackrf_board_id::BOARD_ID_PRALINE.code() == 5,
        hackrf_board_id::BOARD_ID_UNRECOGNIZED.code() == 0xFE,
        hackrf_board_id::BOARD_ID_UNDETECTED.code() == 0xFF,
{
}

/// Law: every `hackrf_board_rev` variant carries libhackrf's number for it.
pub proof fn law_hackrf_board_rev_codes()
    ensures
        hackrf_board_rev::BOARD_REV_HACKRF1_OLD.code() == 0,
        hackrf_board_rev::BOARD_REV_HACKRF1_R6.code() == 1,
        hackrf_board_rev::BOARD_REV_HACKRF1_R7.code() == 2,
        hackrf_board_rev::BOARD_REV_HACKRF1_R8.code() == 3,
        hackrf_board_rev::BOARD_REV_HACKRF1_R9.code() == 4,
        hackrf_board_rev::BOARD_REV_HACKRF1_R10.code() == 5,
        hackrf_board_rev::BOARD_REV_PRALINE_R0_1.code() == 6,
        hackrf_board_rev::BOARD_REV_PRALINE_R0_2.code() == 7,
        hackrf_board_rev::BOARD_REV_PRALINE_R0_3.code() == 8,
        hackrf_board_rev::BOARD_REV_PRALINE_R1_0.code() == 9,
        hackrf_board_rev::BOARD_REV_PRALINE_R1_1.code() == 10,
        hackrf_board_rev::BOARD_REV_PRALINE_R1_2.code() == 11,
        hackrf_board_rev::BOARD_REV_GSG_HACKRF1_R6.code() == 0x81,
        hackrf_board_rev::BOARD_REV_GSG_HACKRF1_R7.code() == 0x82,
        hackrf_board_rev::BOARD_REV_GSG_HACKRF1_R8.code() == 0x83,
        hackrf_board_rev::BOARD_REV_GSG_HACKRF1_R9.code() == 0x84,
        hackrf_board_rev::BOARD_REV_GSG_HACKRF1_R10.code() == 0x85,
        hackrf_board_rev::BOARD_REV_GSG_PRALINE_R0_1.code() == 0x86,
        hackrf_board_rev::BOARD_REV_GSG_PRALINE_R0_2.code() == 0x87,
        hackrf_board_rev::BOARD_REV_GSG_PRALINE_R0_3.code() == 0x88,
        hackrf_board_rev::BOARD_REV_GSG_PRALINE_R1_0.code() == 0x89,
        hackrf_board_rev::BOARD_REV_GSG_PRALINE_R1_1.code() == 0x8a,
        hackrf_board_rev::BOARD_REV_GSG_PRALINE_R1_2.code() == 0x8b,
        hackrf_board_rev::BOARD_REV_UNRECOGNIZED.code() == 0xFE,
        hackrf_board_rev::BOARD_REV_UNDETECTED.code() == 0xFF,
{
}

/// Law: every `hackrf_usb_board_id` variant carries libhackrf's number for it.
pub proof fn law_hackrf_usb_board_id_codes()
    ensures
        hackrf_usb_board_id::USB_BOARD_ID_JAWBREAKER.code() == 0x604B,
        hackrf_usb_board_id::USB_BOARD_ID_HACKRF_ONE.code() == 0x6089,
        hackrf_usb_board_id::USB_BOARD_ID_RAD1O.code() == 0xCC15,
        hackrf_usb_board_id::USB_BOARD_ID_INVALID.code() == 0xFFFF,
{
}

/// Law: every `rf_path_filter` variant carries libhackrf's number for it.
pub proof fn law_rf_path_filter_codes()
    ensures
        rf_path_filter::RF_PATH_FILTER_BYPASS.code() == 0,
        rf_path_filter::RF_PATH_FILTER_LOW_PASS.code() == 1,
        rf_path_filter::RF_PATH_FILTER_HIGH_PASS.code() == 2,
{
}

/// Law: every `operacake_ports` variant carries libhackrf's number for it.
pub proof fn law_operacake_ports_codes()
    ensures
        operacake_ports::OPERACAKE_PA1.code() == 0,
        operacake_ports::OPERACAKE_PA2.code() == 1,
        operacake_ports::OPERACAKE_PA3.code() == 2,
        operacake_ports::OPERACAKE_PA4.code() == 3,
        operacake_ports::OPERACAKE_PB1.code() == 4,
        operacake_ports::OPERACAKE_PB2.code() == 5,
        operacake_ports::OPERACAKE_PB3.code() == 6,
        operacake_ports::OPERACAKE_PB4.code() == 7,
{
}

/// Law: every `operacake_switching_mode` variant carries libhackrf's number for it.
pub proof fn law_operacake_switching_mode_codes()
    ensures
        operacake_switching_mode::OPERACAKE_MODE_MANUAL.code() == 0,
        operacake_switching_mode::OPERACAKE_MODE_FREQUENCY.code() == 1,
        operacake_switching_mode::OPERACAKE_MODE_TIME.code() == 2,
{
}

/// Law: every `sweep_style` variant carries libhackrf's number for it.
pub proof fn law_sweep_style_codes()
    ensures
        sweep_style::LINEAR.code() == 0,
        sweep_style::INTERLEAVED.code() == 1,
{
}

/// Law: every `p1_ctrl_signal` variant carries libhackrf's number for it.
pub proof fn law_p1_ctrl_signal_codes()
    ensures
        p1_ctrl_signal::P1_SIGNAL_TRIGGER_IN.code() == 0,
        p1_ctrl_signal::P1_SIGNAL_AUX_CLK1.code() == 1,
        p1_ctrl_signal::P1_SIGNAL_CLKIN.code() == 2,
        p1_ctrl_signal::P1_SIGNAL_TRIGGER_OUT.code() == 3,
        p1_ctrl_signal::P1_SIGNAL_P22_CLKIN.code() == 4,
        p1_ctrl_signal::P1_SIGNAL_P2_5.code() == 5,
        p1_ctrl_signal::P1_SIGNAL_NC.code() == 6,
        p1_ctrl_signal::P1_SIGNAL_AUX_CLK2.code() == 7,
{
}

/// Law: every `p2_ctrl_signal` variant carries libhackrf's number for it.
pub proof fn law_p2_ctrl_signal_codes()
    ensures
        p2_ctrl_signal::P2_SIGNAL_CLK3.code() == 0,
        p2_ctrl_signal::P2_SIGNAL_TRIGGER_IN.code() == 2,
        p2_ctrl_signal::P2_SIGNAL_TRIGGER_OUT.code() == 3,
{
}

/// Law: every `clkin_ctrl_signal` variant carries libhackrf's number for it.
pub proof fn law_clkin_ctrl_signal_codes()
    ensures
        clkin_ctrl_signal::CLKIN_SIGNAL_P1.code() == 0,
        clkin_ctrl_signal::CLKIN_SIGNAL_P22.code() == 1,
{
}

/// Law: the limits and markers are libhackrf's.
pub proof fn law_constants()
    ensures
        SAMPLES_PER_BLOCK == 8192,
        BYTES_PER_BLOCK == 16384,
        MAX_SWEEP_RANGES == 10,
        HACKRF_OPERACAKE_ADDRESS_INVALID == 0xFF,
        HACKRF_OPERACAKE_MAX_BOARDS == 8,
        HACKRF_OPERACAKE_MAX_DWELL_TIMES == 16,
        HACKRF_OPERACAKE_MAX_FREQ_RANGES == 8,
        HACKRF_BOARD_REV_GSG == 0x80,
        HACKRF_PLATFORM_JAWBREAKER == 1,
        HACKRF_PLATFORM_HACKRF1_OG == 2,
        HACKRF_PLATFORM_RAD1O == 4,
        HACKRF_PLATFORM_HACKRF1_R9 == 8,
        HACKRF_PLATFORM_PRALINE == 16,
        BOARD_ID_HACKRF_ONE == hackrf_board_id::BOARD_ID_HACKRF1_OG,
        BOARD_ID_INVALID == hackrf_board_id::BOARD_ID_UNDETECTED,
{
}

} // verus!

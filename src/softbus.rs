//! Records and constants of the cross-device session transport.

use vstd::prelude::*;

verus! {

/// Length of an intercepted string.
pub const INTERCEPT_STRING_LENGTH: usize = 20;
/// Number of link types a distributed input link can have.
pub const DINPUT_LINK_TYPE_MAX: i32 = 4;
/// Room for a device id, terminator included.
pub const DEVICE_ID_SIZE_MAX: usize = 65;
/// Session side of the server end.
pub const SESSION_SIDE_SERVER: i32 = 0;
/// Status of a failed transport call.
pub const UNSUCCESSFUL: i32 = 0;

/// Link type: 5 GHz wireless LAN.
pub const LINK_TYPE_WIFI_WLAN_5G: i32 = 1;
/// Link type: 2.4 GHz wireless LAN.
pub const LINK_TYPE_WIFI_WLAN_2G: i32 = 2;
/// Link type: peer-to-peer wireless.
pub const LINK_TYPE_WIFI_P2P: i32 = 3;
/// Link type: basic-rate Bluetooth.
pub const LINK_TYPE_BR: i32 = 4;
/// Number of link types a session attribute can list.
pub const LINK_TYPE_MAX: usize = 4;

/// Session type: messages.
pub const TYPE_MESSAGE: i32 = 1;
/// Session type: bytes.
pub const TYPE_BYTES: i32 = 2;
/// Session type: files.
pub const TYPE_FILE: i32 = 3;
/// Session type: streams.
pub const TYPE_STREAM: i32 = 4;
/// First value past the session types.
pub const TYPE_BUTT: i32 = 5;
/// Room for a network id, terminator included.
pub const NETWORK_ID_BUF_LEN: i32 = 65;
/// Room for a device name, terminator included.
pub const DEVICE_NAME_BUF_LEN: i32 = 128;

/// Identity of the local device.
pub struct NodeBasicInfo {
    pub network_id: [i8; 65],
    pub device_name: [i8; 128],
    pub device_type_id: u16,
}

/// Attributes a session is opened with.
#[derive(Clone, Copy, Debug)]
pub struct SessionAttribute {
    pub data_type: i32,
    pub link_type_num: i32,
    pub link_type: [i32; 4],
    pub stream_attr: i32,
}

/// One chunk of stream data.
#[derive(Clone, Copy, Debug, PartialEq, Eq, Structural)]
pub struct StreamData {
    pub buf_data: i8,
    pub buf_len: i32,
}

/// Kind of a message sent over a session.
#[derive(Clone, Copy, Debug, PartialEq, Eq, Structural)]
pub enum MessageId {
    MinId,
    DraggingData,
    StopdragData,
    MaxId,
}

/// Framing information of a stream frame.
#[derive(Clone, Copy, Debug, PartialEq, Eq, Structural)]
pub struct StreamFrameInfo {
    pub frame_type: i32,
    pub time_stamp: i64,
    pub seq_num: i32,
    pub seq_sub_num: i32,
    pub level_num: i32,
    pub bit_map: i32,
    pub tv_count: i32,
    pub tv_list: i32,
}

} // verus!

//! Typed request marshalling and dispatch for the device-status service:
//! an ordered field codec, the request and reply records built on it, and
//! the client side that frames each call behind the interface token.

mod client;
mod coordination;
mod drag;
mod error;
mod input;
mod intention;
mod parcel;
mod reply;
mod softbus;

pub use client::{
    check_interface_token, connect_result, lemma_connect_idempotent, lemma_failures_collapse,
    lemma_token_checked_first, read_request, token_error, token_field, FusionIpcClient, Request,
    DEVICE_STATUS_SERVICE_ID, INTERFACE_DESCRIPTOR,
};
pub use coordination::{
    GeneralCoordinationParam, GetCoordinationStateParam, StartCoordinationParam,
    StopCoordinationParam,
};
pub use drag::{DragClient, DragData};
pub use error::{ConnectError, FusionErrorCode, FusionResult, UnavailableCause};
pub use input::{
    CAxisEvent, CExtraData, CKeyEvent, CPointerEvent, CPointerStyle, CPointerStyleColor,
    PointerStyle,
};
pub use intention::{Intention, Operation};
pub use parcel::{
    fits, kinds, lemma_order_matters, lemma_read_step, lemma_round_trip, lemma_unread_advanced,
    shape_error, swapped, Datum, Deserialize, Field, Kind, Parcel, ParcelError, ParcelView,
    Serialize, DEFAULT_PARCEL_CAPACITY, MAX_PARCEL_CAPACITY,
};
pub use reply::{reply_status, CallingContext, DefaultReply};
pub use softbus::{
    MessageId, NodeBasicInfo, SessionAttribute, StreamData, StreamFrameInfo, DEVICE_ID_SIZE_MAX,
    DEVICE_NAME_BUF_LEN, DINPUT_LINK_TYPE_MAX, INTERCEPT_STRING_LENGTH, LINK_TYPE_BR,
    LINK_TYPE_MAX, LINK_TYPE_WIFI_P2P, LINK_TYPE_WIFI_WLAN_2G, LINK_TYPE_WIFI_WLAN_5G,
    NETWORK_ID_BUF_LEN, SESSION_SIDE_SERVER, TYPE_BUTT, TYPE_BYTES, TYPE_FILE, TYPE_MESSAGE,
    TYPE_STREAM, UNSUCCESSFUL,
};

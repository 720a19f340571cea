use fusion_ipc::{
    Deserialize, DefaultReply, DragData, GeneralCoordinationParam, GetCoordinationStateParam,
    Parcel, ParcelError, Serialize, StartCoordinationParam, StopCoordinationParam,
};

fn sample_drag(buffer: Vec<u8>) -> DragData {
    DragData {
        buffer,
        source_type: 1,
        drag_num: 2,
        pointer_id: 3,
        display_x: -40,
        display_y: 50,
        display_id: 0,
        has_canceled_animation: true,
    }
}

#[test]
fn general_param_round_trip() {
    for v in [0, 1, -1, i32::MAX, i32::MIN] {
        let r = GeneralCoordinationParam { user_data: v };
        let mut p = Parcel::new();
        r.serialize(&mut p).unwrap();
        assert_eq!(GeneralCoordinationParam::deserialize(&mut p).unwrap(), r);
        assert_eq!(p.remaining(), 0);
    }
}

#[test]
fn start_param_round_trip() {
    for net in ["net-42", ""] {
        let r = StartCoordinationParam {
            user_data: 7,
            start_device_id: 3,
            remote_network_id: net.to_string(),
        };
        let mut p = Parcel::new();
        r.serialize(&mut p).unwrap();
        assert_eq!(p.len(), 3);
        let d = StartCoordinationParam::deserialize(&mut p).unwrap();
        assert_eq!(d.user_data, 7);
        assert_eq!(d.start_device_id, 3);
        assert_eq!(d.remote_network_id, net);
    }
}

#[test]
fn stop_param_round_trip() {
    let r = StopCoordinationParam { user_data: -9, is_unchained: 1 };
    let mut p = Parcel::new();
    r.serialize(&mut p).unwrap();
    assert_eq!(StopCoordinationParam::deserialize(&mut p).unwrap(), r);
}

#[test]
fn get_state_param_round_trip() {
    let r = GetCoordinationStateParam { user_data: 11, device_id: "dev-a".to_string() };
    let mut p = Parcel::new();
    r.serialize(&mut p).unwrap();
    let d = GetCoordinationStateParam::deserialize(&mut p).unwrap();
    assert_eq!(d.user_data, 11);
    assert_eq!(d.device_id, "dev-a");
}

#[test]
fn default_reply_round_trip() {
    let r = DefaultReply { reply: -1 };
    let mut p = Parcel::new();
    r.serialize(&mut p).unwrap();
    assert_eq!(DefaultReply::deserialize(&mut p).unwrap(), r);
}

#[test]
fn drag_data_round_trip() {
    for buffer in [vec![1u8, 2, 3, 255], Vec::new()] {
        let r = sample_drag(buffer.clone());
        let mut p = Parcel::new();
        r.serialize(&mut p).unwrap();
        assert_eq!(p.len(), 8);
        let d = DragData::deserialize(&mut p).unwrap();
        assert_eq!(d.buffer, buffer);
        assert_eq!(d.source_type, 1);
        assert_eq!(d.drag_num, 2);
        assert_eq!(d.pointer_id, 3);
        assert_eq!(d.display_x, -40);
        assert_eq!(d.display_y, 50);
        assert_eq!(d.display_id, 0);
        assert!(d.has_canceled_animation);
    }
}

#[test]
fn records_follow_one_another() {
    let mut p = Parcel::new();
    GeneralCoordinationParam { user_data: 1 }.serialize(&mut p).unwrap();
    StopCoordinationParam { user_data: 2, is_unchained: 0 }.serialize(&mut p).unwrap();
    assert_eq!(GeneralCoordinationParam::deserialize(&mut p).unwrap().user_data, 1);
    let s = StopCoordinationParam::deserialize(&mut p).unwrap();
    assert_eq!((s.user_data, s.is_unchained), (2, 0));
}

#[test]
fn swapped_kinds_fail_to_decode() {
    // the network id written before the device id
    let mut p = Parcel::new();
    p.write_i32(7).unwrap();
    p.write_string(&"net-42".to_string()).unwrap();
    p.write_i32(3).unwrap();
    assert_eq!(StartCoordinationParam::deserialize(&mut p).unwrap_err(), ParcelError::Malformed);
    assert_eq!(p.position(), 0);

    let mut p = Parcel::new();
    p.write_string(&"dev-a".to_string()).unwrap();
    p.write_i32(11).unwrap();
    assert_eq!(GetCoordinationStateParam::deserialize(&mut p).unwrap_err(), ParcelError::Malformed);
}

#[test]
fn swapped_integers_decode_differently() {
    let r = StartCoordinationParam { user_data: 7, start_device_id: 3, remote_network_id: "n".to_string() };
    let mut p = Parcel::new();
    p.write_i32(r.start_device_id).unwrap();
    p.write_i32(r.user_data).unwrap();
    p.write_string(&r.remote_network_id).unwrap();
    let d = StartCoordinationParam::deserialize(&mut p).unwrap();
    assert_eq!((d.user_data, d.start_device_id), (3, 7));
    assert_ne!((d.user_data, d.start_device_id), (r.user_data, r.start_device_id));

    let s = StopCoordinationParam { user_data: 5, is_unchained: 1 };
    let mut p = Parcel::new();
    p.write_i32(s.is_unchained).unwrap();
    p.write_i32(s.user_data).unwrap();
    assert_ne!(StopCoordinationParam::deserialize(&mut p).unwrap(), s);
}

#[test]
fn truncated_record_reports_truncated_and_keeps_buffer() {
    let mut p = Parcel::new();
    p.write_i32(7).unwrap();
    p.write_i32(3).unwrap();
    assert_eq!(StartCoordinationParam::deserialize(&mut p).unwrap_err(), ParcelError::Truncated);
    assert_eq!(p.position(), 0);
    assert_eq!(p.read_i32().unwrap(), 7);

    let mut empty = Parcel::new();
    assert_eq!(DefaultReply::deserialize(&mut empty).unwrap_err(), ParcelError::Truncated);
}

#[test]
fn serialize_without_room_changes_nothing() {
    let mut p = Parcel::with_capacity(2).unwrap();
    let r = StartCoordinationParam { user_data: 1, start_device_id: 2, remote_network_id: String::new() };
    assert_eq!(r.serialize(&mut p).unwrap_err(), ParcelError::Overflow);
    assert_eq!(p.len(), 0);
    assert_eq!(p.room(), 2);
}

#[test]
fn general_param_defaults_to_zero() {
    assert_eq!(GeneralCoordinationParam::default().user_data, 0);
}

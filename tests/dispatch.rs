use fusion_ipc::{
    check_interface_token, read_request, CallingContext, ConnectError, DefaultReply, DragClient,
    DragData, FusionErrorCode, FusionIpcClient, FusionResult, GeneralCoordinationParam,
    Intention, Operation, Parcel, ParcelError, Request, Serialize, StartCoordinationParam,
    UnavailableCause, DEFAULT_PARCEL_CAPACITY, INTERFACE_DESCRIPTOR, MAX_PARCEL_CAPACITY,
};

/// Stands in for the remote endpoint: one id per handle.
#[derive(Debug, Clone, Copy, PartialEq)]
struct Endpoint(u32);

/// A service that answers every request with a fixed status in its reply.
struct SimulatedService {
    status: i32,
}

impl SimulatedService {
    fn handle_start(&self, req: &mut Request, reply: &mut Parcel) -> (FusionResult<i32>, StartCoordinationParam) {
        let param: StartCoordinationParam = read_request(&mut req.data).unwrap();
        DefaultReply { reply: self.status }.serialize(reply).unwrap();
        (Ok(0), param)
    }

    fn handle_drag(&self, req: &mut Request, reply: &mut Parcel) -> FusionResult<i32> {
        let _drag: DragData = read_request(&mut req.data).unwrap();
        DefaultReply { reply: self.status }.serialize(reply).unwrap();
        Ok(0)
    }
}

fn client() -> FusionIpcClient<Endpoint> {
    FusionIpcClient::connect(Some(Some(Endpoint(1)))).unwrap()
}

fn drag_data() -> DragData {
    DragData {
        buffer: vec![7, 7],
        source_type: 0,
        drag_num: 1,
        pointer_id: 0,
        display_x: 10,
        display_y: 20,
        display_id: 0,
        has_canceled_animation: false,
    }
}

#[test]
fn coordination_start_end_to_end() {
    let c = client();
    let param = StartCoordinationParam {
        user_data: 7,
        start_device_id: 3,
        remote_network_id: "net-42".to_string(),
    };
    let mut req = c.start(Intention::Coordination, &param).unwrap();
    assert_eq!(req.operation, Operation::Start);
    assert_eq!(req.intention, Intention::Coordination);
    let service = SimulatedService { status: 0 };
    let mut reply = Parcel::new();
    let (call, seen) = service.handle_start(&mut req, &mut reply);
    assert_eq!(seen.user_data, 7);
    assert_eq!(seen.start_device_id, 3);
    assert_eq!(seen.remote_network_id, "net-42");
    assert_eq!(call, Ok(0));
    assert_eq!(DefaultReply::status_of(call, &mut reply), Ok(0));
}

#[test]
fn drag_start_reports_feature_failure() {
    let c = client();
    let drag = DragClient::new();
    let mut req = drag.start_drag(&drag_data(), &c).unwrap();
    assert_eq!(req.operation, Operation::Start);
    assert_eq!(req.intention, Intention::Drag);
    let service = SimulatedService { status: -1 };
    let mut reply = Parcel::new();
    let call = service.handle_drag(&mut req, &mut reply);
    assert_eq!(drag.start_drag_reply(call, &mut reply), Ok(-1));
}

#[test]
fn drag_start_succeeds() {
    let c = client();
    let drag = DragClient::default();
    let mut req = drag.start_drag(&drag_data(), &c).unwrap();
    let mut reply = Parcel::new();
    let call = SimulatedService { status: 0 }.handle_drag(&mut req, &mut reply);
    assert_eq!(drag.start_drag_reply(call, &mut reply), Ok(0));
}

#[test]
fn request_starts_with_token_then_record() {
    let c = client();
    let mut req = c.enable(Intention::Coordination, &GeneralCoordinationParam { user_data: 5 }).unwrap();
    assert_eq!(req.data.len(), 2);
    assert_eq!(req.data.read_interface_token().unwrap(), INTERFACE_DESCRIPTOR);
    assert_eq!(req.data.read_i32().unwrap(), 5);
}

#[test]
fn request_without_token_is_refused_first() {
    let mut p = Parcel::new();
    GeneralCoordinationParam { user_data: 5 }.serialize(&mut p).unwrap();
    let r: Result<GeneralCoordinationParam, ParcelError> = read_request(&mut p);
    assert_eq!(r.unwrap_err(), ParcelError::Malformed);
    assert_eq!(p.position(), 0);

    let mut empty = Parcel::new();
    assert_eq!(check_interface_token(&mut empty).unwrap_err(), ParcelError::Truncated);
}

#[test]
fn request_with_corrupted_token_is_refused() {
    let mut p = Parcel::new();
    p.write_interface_token("ohos.msdp.Other").unwrap();
    GeneralCoordinationParam { user_data: 5 }.serialize(&mut p).unwrap();
    let r: Result<GeneralCoordinationParam, ParcelError> = read_request(&mut p);
    assert_eq!(r.unwrap_err(), ParcelError::InterfaceMismatch);
    assert_eq!(p.position(), 0);
}

#[test]
fn bad_token_is_refused_whatever_follows() {
    // the payload does not even fit the record: the token decides alone
    let mut p = Parcel::new();
    p.write_interface_token("wrong").unwrap();
    p.write_bool(true).unwrap();
    let r: Result<StartCoordinationParam, ParcelError> = read_request(&mut p);
    assert_eq!(r.unwrap_err(), ParcelError::InterfaceMismatch);
}

#[test]
fn good_token_with_bad_payload_keeps_buffer() {
    let mut p = Parcel::new();
    p.write_interface_token(INTERFACE_DESCRIPTOR).unwrap();
    p.write_bool(true).unwrap();
    let r: Result<GeneralCoordinationParam, ParcelError> = read_request(&mut p);
    assert_eq!(r.unwrap_err(), ParcelError::Malformed);
    assert_eq!(p.position(), 0);
}

#[test]
fn id_operations_carry_their_id() {
    let c = client();
    let d = GeneralCoordinationParam { user_data: 0 };
    assert_eq!(c.add_watch(Intention::Drag, 4, &d).unwrap().operation, Operation::AddWatch(4));
    assert_eq!(c.remove_watch(Intention::Drag, 5, &d).unwrap().operation, Operation::RemoveWatch(5));
    assert_eq!(c.set_param(Intention::Drag, 6, &d).unwrap().operation, Operation::SetParam(6));
    assert_eq!(c.get_param(Intention::Drag, 7, &d).unwrap().operation, Operation::GetParam(7));
    assert_eq!(c.control(Intention::Drag, 8, &d).unwrap().operation, Operation::Control(8));
    assert_eq!(Operation::Control(8).id(), Some(8));
}

#[test]
fn plain_operations_carry_no_id() {
    let c = client();
    let d = GeneralCoordinationParam { user_data: 0 };
    for op in [
        c.enable(Intention::Stationary, &d).unwrap().operation,
        c.disable(Intention::Stationary, &d).unwrap().operation,
        c.start(Intention::Stationary, &d).unwrap().operation,
        c.stop(Intention::Stationary, &d).unwrap().operation,
    ] {
        assert_eq!(op.id(), None);
    }
    assert_eq!(c.stop(Intention::Socket, &d).unwrap().operation, Operation::Stop);
}

#[test]
fn failures_collapse_to_fail() {
    let d = StartCoordinationParam { user_data: 1, start_device_id: 2, remote_network_id: "n".to_string() };
    // no buffer can be acquired
    let a = client().with_request_capacity(MAX_PARCEL_CAPACITY + 1).start(Intention::Coordination, &d);
    // no room for the token
    let b = client().with_request_capacity(0).start(Intention::Coordination, &d);
    // no room for the record
    let p = client().with_request_capacity(3).start(Intention::Coordination, &d);
    // the transport fails
    let mut reply = Parcel::new();
    DefaultReply { reply: 0 }.serialize(&mut reply).unwrap();
    let t = DefaultReply::status_of(Err(FusionErrorCode::Fail), &mut reply);
    // the reply holds no status
    let mut empty = Parcel::new();
    let r = DefaultReply::status_of(Ok(0), &mut empty);
    let mut wrong = Parcel::new();
    wrong.write_string(&"x".to_string()).unwrap();
    let w = DragClient::new().start_drag_reply(Ok(0), &mut wrong);
    assert_eq!(a.unwrap_err(), FusionErrorCode::Fail);
    assert_eq!(b.unwrap_err(), FusionErrorCode::Fail);
    assert_eq!(p.unwrap_err(), FusionErrorCode::Fail);
    assert_eq!(t, Err(FusionErrorCode::Fail));
    assert_eq!(r, Err(FusionErrorCode::Fail));
    assert_eq!(w, Err(FusionErrorCode::Fail));
    assert_eq!(reply.position(), 0);
    assert_eq!(wrong.position(), 0);
    assert_eq!(FusionErrorCode::Fail.code(), -1);
}

#[test]
fn exact_room_is_enough() {
    let d = StartCoordinationParam { user_data: 1, start_device_id: 2, remote_network_id: "n".to_string() };
    let q = client().with_request_capacity(4).start(Intention::Coordination, &d).unwrap();
    assert_eq!(q.data.len(), 4);
    assert_eq!(q.data.room(), 0);
}

#[test]
fn connect_twice_against_available_registry() {
    let a = FusionIpcClient::connect(Some(Some(Endpoint(1)))).unwrap();
    let b = FusionIpcClient::connect(Some(Some(Endpoint(2)))).unwrap();
    assert_eq!(a.remote, Endpoint(1));
    assert_eq!(b.remote, Endpoint(2));
    assert_eq!(a.request_capacity, DEFAULT_PARCEL_CAPACITY);
    let d = GeneralCoordinationParam { user_data: 0 };
    assert!(a.enable(Intention::Drag, &d).is_ok());
    assert!(b.enable(Intention::Drag, &d).is_ok());
}

#[test]
fn connect_twice_against_unavailable_registry() {
    for _ in 0..2 {
        assert_eq!(FusionIpcClient::<Endpoint>::connect(None).err(), Some(ConnectError::Unavailable));
        assert_eq!(FusionIpcClient::<Endpoint>::connect(Some(None)).err(), Some(ConnectError::Unavailable));
    }
}

#[test]
fn resolve_keeps_the_cause() {
    assert_eq!(FusionIpcClient::<Endpoint>::resolve(None).err(), Some(UnavailableCause::NotRegistered));
    assert_eq!(FusionIpcClient::<Endpoint>::resolve(Some(None)).err(), Some(UnavailableCause::WrongInterface));
    assert_eq!(FusionIpcClient::resolve(Some(Some(Endpoint(3)))).ok(), Some(Endpoint(3)));
}

#[test]
fn intention_codes() {
    for i in [Intention::Socket, Intention::Stationary, Intention::Drag, Intention::Coordination] {
        assert_eq!(Intention::from_code(i.code()), Some(i));
    }
    assert_eq!(Intention::Drag.code(), 3);
    assert_eq!(Intention::from_code(0), None);
    assert_eq!(Intention::from_code(5), None);
}

#[test]
fn calling_context_snapshot() {
    let c = CallingContext::current(1000, 42, 77);
    assert_eq!(c.calling_uid(), 1000);
    assert_eq!(c.calling_pid(), 42);
    assert_eq!(c.calling_token_id(), 77);
}

#[test]
fn add_interface_token_appends_one_token() {
    let c = client();
    let mut p = Parcel::new();
    assert_eq!(c.add_interface_token(&mut p), Ok(0));
    assert_eq!(p.len(), 1);
    assert_eq!(p.read_interface_token().unwrap(), INTERFACE_DESCRIPTOR);
}

#[test]
fn add_interface_token_without_room_fails() {
    let c = client();
    let mut p = Parcel::with_capacity(0).unwrap();
    assert_eq!(c.add_interface_token(&mut p), Err(FusionErrorCode::Fail));
    assert_eq!(p.len(), 0);
}

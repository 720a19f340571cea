//! The client side of the device-status service: connecting, and framing
//! each call as an interface token followed by the caller's record; and the
//! gate the service side passes a request through before it reads anything.

use vstd::prelude::*;
use crate::error::{ConnectError, FusionErrorCode, FusionResult, UnavailableCause};
use crate::intention::{Intention, Operation};
use crate::reply::reply_status;
use crate::parcel::{
    fits, lemma_unread_advanced, shape_error, Deserialize, Field, Kind, Parcel, ParcelError,
    ParcelView, Serialize, DEFAULT_PARCEL_CAPACITY, MAX_PARCEL_CAPACITY,
};

verus! {

/// Descriptor of the interface every request is addressed to.
pub const INTERFACE_DESCRIPTOR: &'static str = "ohos.msdp.Idevicestatus";

/// Identifier under which the device-status service is registered.
pub const DEVICE_STATUS_SERVICE_ID: i32 = 2902;

/// The field every request starts with.
pub open spec fn token_field() -> Field {
    Field::Token(INTERFACE_DESCRIPTOR@)
}

/// Why the fields `u` cannot be a request: nothing at all, a first field that is
/// no interface token, or a token for another interface. `None` when `u` starts
/// with the expected token. Only the first field is looked at.
pub open spec fn token_error(u: Seq<Field>) -> Option<ParcelError> {
    if u.len() == 0 {
        Some(ParcelError::Truncated)
    } else if u[0].kind() != Kind::Token {
        Some(ParcelError::Malformed)
    } else if u[0] != token_field() {
        Some(ParcelError::InterfaceMismatch)
    } else {
        None
    }
}

/// The token check decides on the first field alone: two buffers that agree on
/// it, or that both hold nothing, are accepted or refused alike, whatever
/// parameters follow; and one whose first field is not the expected token is
/// refused.
pub proof fn lemma_token_checked_first(s1: Seq<Field>, s2: Seq<Field>)
    requires
        s1.len() == 0 <==> s2.len() == 0,
        s1.len() > 0 ==> s1[0] == s2[0],
    ensures
        token_error(s1) == token_error(s2),
        s1.len() == 0 || s1[0] != token_field() ==> token_error(s1) is Some,
{
}

/// The outcome of connecting after a registry lookup (see `FusionIpcClient::resolve`):
/// the handle found, or `Unavailable` whichever way the lookup failed.
pub open spec fn connect_result<R>(lookup: Option<Option<R>>) -> Result<R, ConnectError> {
    match lookup {
        Some(Some(remote)) => Ok(remote),
        _ => Err(ConnectError::Unavailable),
    }
}

/// A call ready to be sent: its selectors and its request buffer.
#[derive(Debug)]
pub struct Request {
    pub intention: Intention,
    pub operation: Operation,
    pub data: Parcel,
}

/// A connection to the device-status service.
#[derive(Debug)]
pub struct FusionIpcClient<R> {
    /// Handle to the remote endpoint.
    pub remote: R,
    /// Room, in fields, of the buffer acquired for each request.
    pub request_capacity: usize,
}

impl<R> FusionIpcClient<R> {
    /// Tells the outcome of a registry lookup apart: `lookup` is `None` when no
    /// service is registered, `Some(None)` when the one found does not narrow
    /// to the expected interface, and `Some(Some(remote))` otherwise.
    pub fn resolve(lookup: Option<Option<R>>) -> (r: Result<R, UnavailableCause>)
        ensures
            match lookup {
                None => r == Err::<R, UnavailableCause>(UnavailableCause::NotRegistered),
                Some(None) => r == Err::<R, UnavailableCause>(UnavailableCause::WrongInterface),
                Some(Some(remote)) => r == Ok::<R, UnavailableCause>(remote),
            },
    {
        match lookup {
            None => Err(UnavailableCause::NotRegistered),
            Some(None) => Err(UnavailableCause::WrongInterface),
            Some(Some(remote)) => Ok(remote),
        }
    }

    /// Connects from the outcome of a registry lookup (see `resolve`). Both
    /// ways of not finding the service give `Unavailable`.
    pub fn connect(lookup: Option<Option<R>>) -> (r: Result<Self, ConnectError>)
        ensures
            r is Ok <==> connect_result(lookup) is Ok,
            r matches Ok(c) ==> connect_result(lookup) == Ok::<R, ConnectError>(c.remote)
                && c.request_capacity == DEFAULT_PARCEL_CAPACITY,
            r matches Err(e) ==> connect_result(lookup) == Err::<R, ConnectError>(e),
    {
        match Self::resolve(lookup) {
            Ok(remote) => Ok(FusionIpcClient { remote, request_capacity: DEFAULT_PARCEL_CAPACITY }),
            Err(_) => Err(ConnectError::Unavailable),
        }
    }

    /// The same connection, acquiring request buffers with room for `capacity` fields.
    pub fn with_request_capacity(self, capacity: usize) -> (r: Self)
        ensures
            r.remote == self.remote,
            r.request_capacity == capacity,
    {
        FusionIpcClient { remote: self.remote, request_capacity: capacity }
    }

    /// Whether `r` is the outcome of framing a call `operation` on `intention`
    /// with a record written as `wire`: a fresh buffer holding the interface
    /// token and then `wire`, or `Fail` when no buffer of the client's room can
    /// be acquired or the token and record do not fit in it.
    pub open spec fn dispatched(
        self,
        operation: Operation,
        intention: Intention,
        wire: Seq<Field>,
        r: FusionResult<Request>,
    ) -> bool {
        &&& r is Ok <==> self.request_capacity <= MAX_PARCEL_CAPACITY && 1 + wire.len()
            <= self.request_capacity
        &&& r matches Ok(q) ==> {
            &&& q.operation == operation
            &&& q.intention == intention
            &&& q.data.wf()
            &&& q.data@ == ParcelView::fresh(seq![token_field()] + wire, self.request_capacity as nat)
        }
        &&& r matches Err(e) ==> e == FusionErrorCode::Fail
    }

    /// Writes the interface token into `parcel`: exactly one token field naming
    /// this interface, answered by `Ok(0)`; or, when the buffer has no room,
    /// `Fail` with the buffer unchanged.
    pub fn add_interface_token(&self, parcel: &mut Parcel) -> (r: FusionResult<i32>)
        requires
            old(parcel).wf(),
        ensures
            final(parcel).wf(),
            r is Ok <==> old(parcel)@.has_room(1),
            r is Ok ==> r == Ok::<i32, FusionErrorCode>(0) && final(parcel)@ == old(parcel)@.appended(
                seq![token_field()],
            ),
            r matches Err(e) ==> e == FusionErrorCode::Fail && final(parcel)@ == old(parcel)@,
    {
        match parcel.write_interface_token(INTERFACE_DESCRIPTOR) {
            Ok(_) => Ok(0),
            Err(_) => Err(FusionErrorCode::Fail),
        }
    }

    /// Frames one call: acquires a buffer, writes the token, then the record.
    fn call<T: Serialize>(&self, operation: Operation, intention: Intention, data: &T) -> (r:
        FusionResult<Request>)
        ensures
            self.dispatched(operation, intention, data.wire(), r),
    {
        let mut parcel = match Parcel::with_capacity(self.request_capacity) {
            Some(p) => p,
            None => return Err(FusionErrorCode::Fail),
        };
        if self.add_interface_token(&mut parcel).is_err() {
            return Err(FusionErrorCode::Fail);
        }
        if data.serialize(&mut parcel).is_err() {
            return Err(FusionErrorCode::Fail);
        }
        assert(parcel@.fields =~= seq![token_field()] + data.wire());
        Ok(Request { intention, operation, data: parcel })
    }

    /// Frames an `enable` call on `intention`.
    pub fn enable<T: Serialize>(&self, intention: Intention, data: &T) -> (r: FusionResult<Request>)
        ensures
            self.dispatched(Operation::Enable, intention, data.wire(), r),
    {
        self.call(Operation::Enable, intention, data)
    }

    /// Frames a `disable` call on `intention`.
    pub fn disable<T: Serialize>(&self, intention: Intention, data: &T) -> (r: FusionResult<Request>)
        ensures
            self.dispatched(Operation::Disable, intention, data.wire(), r),
    {
        self.call(Operation::Disable, intention, data)
    }

    /// Frames a `start` call on `intention`.
    pub fn start<T: Serialize>(&self, intention: Intention, data: &T) -> (r: FusionResult<Request>)
        ensures
            self.dispatched(Operation::Start, intention, data.wire(), r),
    {
        self.call(Operation::Start, intention, data)
    }

    /// Frames a `stop` call on `intention`.
    pub fn stop<T: Serialize>(&self, intention: Intention, data: &T) -> (r: FusionResult<Request>)
        ensures
            self.dispatched(Operation::Stop, intention, data.wire(), r),
    {
        self.call(Operation::Stop, intention, data)
    }

    /// Frames a call that adds watch `id` on `intention`.
    pub fn add_watch<T: Serialize>(&self, intention: Intention, id: u32, data: &T) -> (r:
        FusionResult<Request>)
        ensures
            self.dispatched(Operation::AddWatch(id), intention, data.wire(), r),
    {
        self.call(Operation::AddWatch(id), intention, data)
    }

    /// Frames a call that removes watch `id` on `intention`.
    pub fn remove_watch<T: Serialize>(&self, intention: Intention, id: u32, data: &T) -> (r:
        FusionResult<Request>)
        ensures
            self.dispatched(Operation::RemoveWatch(id), intention, data.wire(), r),
    {
        self.call(Operation::RemoveWatch(id), intention, data)
    }

    /// Frames a call that sets parameter `id` on `intention`.
    pub fn set_param<T: Serialize>(&self, intention: Intention, id: u32, data: &T) -> (r:
        FusionResult<Request>)
        ensures
            self.dispatched(Operation::SetParam(id), intention, data.wire(), r),
    {
        self.call(Operation::SetParam(id), intention, data)
    }

    /// Frames a call that reads parameter `id` on `intention`.
    pub fn get_param<T: Serialize>(&self, intention: Intention, id: u32, data: &T) -> (r:
        FusionResult<Request>)
        ensures
            self.dispatched(Operation::GetParam(id), intention, data.wire(), r),
    {
        self.call(Operation::GetParam(id), intention, data)
    }

    /// Frames a call on control channel `id` of `intention`.
    pub fn control<T: Serialize>(&self, intention: Intention, id: u32, data: &T) -> (r:
        FusionResult<Request>)
        ensures
            self.dispatched(Operation::Control(id), intention, data.wire(), r),
    {
        self.call(Operation::Control(id), intention, data)
    }
}

/// Two connection attempts against a registry in the same state end alike:
/// while the service is available both connect, and while it is not both fail
/// with `Unavailable`.
pub proof fn lemma_connect_idempotent<R>(a: Option<Option<R>>, b: Option<Option<R>>)
    ensures
        a is Some && a->Some_0 is Some && b is Some && b->Some_0 is Some ==> connect_result(a)
            is Ok && connect_result(b) is Ok,
        !(a is Some && a->Some_0 is Some) && !(b is Some && b->Some_0 is Some) ==> connect_result(a)
            == Err::<R, ConnectError>(ConnectError::Unavailable) && connect_result(b) == Err::<
            R,
            ConnectError,
        >(ConnectError::Unavailable),
{
}

/// Every way a call can fail after connecting ends in the same `Fail`, with no
/// request handed out: no buffer of the client's room can be acquired, the
/// token does not fit, or the record does not; and on the way back, the
/// transport fails, or the reply holds no status.
pub proof fn lemma_failures_collapse<R>(
    client: FusionIpcClient<R>,
    operation: Operation,
    intention: Intention,
    wire: Seq<Field>,
    r: FusionResult<Request>,
    call: FusionResult<i32>,
    reply: Seq<Field>,
)
    requires
        client.dispatched(operation, intention, wire, r),
    ensures
        client.request_capacity > MAX_PARCEL_CAPACITY ==> r is Err && r->Err_0
            == FusionErrorCode::Fail,
        client.request_capacity < 1 ==> r is Err && r->Err_0 == FusionErrorCode::Fail,
        client.request_capacity < 1 + wire.len() ==> r is Err && r->Err_0 == FusionErrorCode::Fail,
        call is Err ==> reply_status(call, reply) == Err::<i32, FusionErrorCode>(
            FusionErrorCode::Fail,
        ),
        call is Ok && !(reply.len() > 0 && reply[0] is I32) ==> reply_status(call, reply) == Err::<
            i32,
            FusionErrorCode,
        >(FusionErrorCode::Fail),
{
}

/// Reads and checks the interface token at the cursor of a request buffer.
pub fn check_interface_token(parcel: &mut Parcel) -> (r: Result<(), ParcelError>)
    requires
        old(parcel).wf(),
    ensures
        final(parcel).wf(),
        r is Ok <==> token_error(old(parcel)@.unread()) is None,
        r is Ok ==> final(parcel)@ == old(parcel)@.advanced(1),
        r matches Err(e) ==> token_error(old(parcel)@.unread()) == Some(e) && final(parcel)@
            == old(parcel)@,
{
    let ghost u = parcel@.unread();
    let start = parcel.position();
    let token = match parcel.read_interface_token() {
        Ok(t) => t,
        Err(e) => {
            assert(u.len() > 0 ==> u[0].kind() != Kind::Token);
            return Err(e);
        },
    };
    assert(u[0].kind() == Kind::Token);
    let expected = INTERFACE_DESCRIPTOR.to_owned();
    if token == expected {
        Ok(())
    } else {
        parcel.rewind(start);
        Err(ParcelError::InterfaceMismatch)
    }
}

/// Reads a request on the service side: the interface token first, and only
/// when it is the expected one, the record of type `T` that follows it. On any
/// failure the buffer is left as it was.
pub fn read_request<T: Deserialize>(parcel: &mut Parcel) -> (r: Result<T, ParcelError>)
    requires
        old(parcel).wf(),
    ensures
        final(parcel).wf(),
        token_error(old(parcel)@.unread()) matches Some(e) ==> r == Err::<T, ParcelError>(e)
            && final(parcel)@ == old(parcel)@,
        token_error(old(parcel)@.unread()) is None ==> {
            let rest = old(parcel)@.unread().skip(1);
            &&& r is Ok <==> fits(rest, T::shape())
            &&& r matches Ok(v) ==> v.wire() == rest.take(T::shape().len() as int) && final(parcel)@
                == old(parcel)@.advanced(1 + T::shape().len())
            &&& r matches Err(e) ==> e == shape_error(rest, T::shape()) && final(parcel)@
                == old(parcel)@
        },
{
    let ghost p0 = parcel@;
    let start = parcel.position();
    if let Err(e) = check_interface_token(parcel) {
        return Err(e);
    }
    proof {
        lemma_unread_advanced(p0, 1);
    }
    match T::deserialize(parcel) {
        Ok(v) => Ok(v),
        Err(e) => {
            parcel.rewind(start);
            Err(e)
        },
    }
}

} // verus!

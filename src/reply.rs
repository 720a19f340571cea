//! The identity of an incoming call and the default reply record.

use vstd::prelude::*;
use crate::error::{FusionErrorCode, FusionResult};
use crate::parcel::{
    fits, kinds, lemma_read_step, lemma_unread_advanced, Deserialize, Field, Kind, Parcel,
    ParcelError, Serialize,
};

verus! {

/// Who made the incoming call being served: a snapshot taken once per call.
pub struct CallingContext {
    calling_uid: u64,
    calling_pid: u64,
    calling_token_id: u64,
}

impl View for CallingContext {
    /// Caller user id, process id and capability token.
    type V = (u64, u64, u64);

    closed spec fn view(&self) -> (u64, u64, u64) {
        (self.calling_uid, self.calling_pid, self.calling_token_id)
    }
}

impl CallingContext {
    /// The context of the current call, from the caller's user id, process id
    /// and capability token as the transport reports them.
    pub fn current(calling_uid: u64, calling_pid: u64, calling_token_id: u64) -> (r: Self)
        ensures
            r@ == (calling_uid, calling_pid, calling_token_id),
    {
        CallingContext { calling_uid, calling_pid, calling_token_id }
    }

    /// User id of the caller.
    pub fn calling_uid(&self) -> (r: u64)
        ensures
            r == self@.0,
    {
        self.calling_uid
    }

    /// Process id of the caller.
    pub fn calling_pid(&self) -> (r: u64)
        ensures
            r == self@.1,
    {
        self.calling_pid
    }

    /// Capability token of the caller.
    pub fn calling_token_id(&self) -> (r: u64)
        ensures
            r == self@.2,
    {
        self.calling_token_id
    }
}

/// The reply of most calls: a status, zero on success.
#[derive(Clone, Copy, Debug, PartialEq, Eq, Structural)]
pub struct DefaultReply {
    /// Status reported by the service; zero on success, a failure code otherwise.
    pub reply: i32,
}

impl Serialize for DefaultReply {
    open spec fn wire(&self) -> Seq<Field> {
        seq![
            Field::I32(self.reply),
        ]
    }

    fn serialize(&self, parcel: &mut Parcel) -> (r: Result<(), ParcelError>) {
        if parcel.room() < 1 {
            return Err(ParcelError::Overflow);
        }
        let ghost p0 = parcel@;
        if parcel.write_i32(self.reply).is_err() {
            return Err(ParcelError::Overflow);
        }
        assert(parcel@.fields =~= p0.fields + self.wire());
        Ok(())
    }
}

impl Deserialize for DefaultReply {
    open spec fn shape() -> Seq<Kind> {
        seq![Kind::I32]
    }

    proof fn lemma_wire_shape(&self) {
        assert(kinds(self.wire()) =~= Self::shape());
    }

    fn deserialize(parcel: &mut Parcel) -> (r: Result<Self, ParcelError>) {
        let ghost p0 = parcel@;
        let ghost u = p0.unread();
        let ghost shape = Self::shape();
        let start = parcel.position();

        proof {
            lemma_read_step(u, shape, 0);
            assert(u.skip(0) =~= u);
        }
        let reply = match parcel.read_i32() {
            Ok(v) => v,
            Err(e) => return Err(e),
        };

        let r = DefaultReply { reply };
        assert(r.wire() =~= u.take(1));
        Ok(r)
    }
}

impl DefaultReply {
    /// A record is determined by its encoding: two records written as the same
    /// fields are equal field by field.
    pub proof fn lemma_wire_injective(a: DefaultReply, b: DefaultReply)
        requires
            a.wire() == b.wire(),
        ensures
            a.reply == b.reply,
            a == b,
    {
        assert(a.wire()[0] == Field::I32(a.reply) && b.wire()[0] == Field::I32(b.reply));
        assert(a.wire()[0] == b.wire()[0]);
    }
}

/// What a caller learns from a call whose transport outcome is `call` and whose
/// reply buffer holds `reply` unread: the status of the reply, or `Fail` when
/// the transport failed or the reply holds no status.
pub open spec fn reply_status(call: FusionResult<i32>, reply: Seq<Field>) -> FusionResult<i32> {
    match call {
        Err(_) => Err(FusionErrorCode::Fail),
        Ok(_) => if reply.len() > 0 && reply[0] is I32 {
            Ok(reply[0]->I32_0)
        } else {
            Err(FusionErrorCode::Fail)
        },
    }
}

impl DefaultReply {
    /// Decodes the status of a call from its transport outcome and its reply
    /// buffer. A transport failure and a reply that cannot be decoded both give
    /// `Fail`; a status the service wrote, negative or not, comes back as `Ok`.
    pub fn status_of(call: FusionResult<i32>, reply: &mut Parcel) -> (r: FusionResult<i32>)
        requires
            old(reply).wf(),
        ensures
            final(reply).wf(),
            r == reply_status(call, old(reply)@.unread()),
            r is Ok ==> final(reply)@ == old(reply)@.advanced(1),
            r is Err ==> final(reply)@ == old(reply)@,
    {
        if call.is_err() {
            return Err(FusionErrorCode::Fail);
        }
        let ghost u = reply@.unread();
        match DefaultReply::deserialize(reply) {
            Ok(x) => {
                assert(u.take(1)[0] == u[0]);
                Ok(x.reply)
            },
            Err(_) => {
                assert(!fits(u, seq![Kind::I32]) ==> !(u.len() > 0 && u[0] is I32)) by {
                    if u.len() > 0 && u[0] is I32 {
                        assert(u[0].kind() == Kind::I32);
                    }
                };
                Err(FusionErrorCode::Fail)
            },
        }
    }
}

} // verus!

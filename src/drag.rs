//! The drag intention: its start record and its client.

use vstd::prelude::*;
use crate::client::{FusionIpcClient, Request};
use crate::error::FusionResult;
use crate::intention::{Intention, Operation};
use crate::parcel::{
    kinds, lemma_read_step, lemma_unread_advanced, Deserialize, Field, Kind, Parcel, ParcelError,
    Serialize,
};
use crate::reply::{reply_status, DefaultReply};

verus! {

/// Everything the service needs to start a drag.
#[derive(Debug)]
pub struct DragData {
    /// Payload dragged, as the source application encoded it.
    pub buffer: Vec<u8>,
    /// Kind of input device the drag comes from.
    pub source_type: i32,
    /// Number of items dragged.
    pub drag_num: i32,
    /// Pointer that drags.
    pub pointer_id: i32,
    /// Horizontal position where the drag starts.
    pub display_x: i32,
    /// Vertical position where the drag starts.
    pub display_y: i32,
    /// Display where the drag starts.
    pub display_id: i32,
    /// Whether the start animation was cancelled.
    pub has_canceled_animation: bool,
}

impl Serialize for DragData {
    open spec fn wire(&self) -> Seq<Field> {
        seq![
            Field::Bytes(self.buffer@),
            Field::I32(self.source_type),
            Field::I32(self.drag_num),
            Field::I32(self.pointer_id),
            Field::I32(self.display_x),
            Field::I32(self.display_y),
            Field::I32(self.display_id),
            Field::Bool(self.has_canceled_animation),
        ]
    }

    fn serialize(&self, parcel: &mut Parcel) -> (r: Result<(), ParcelError>) {
        if parcel.room() < 8 {
            return Err(ParcelError::Overflow);
        }
        let ghost p0 = parcel@;
        if parcel.write_bytes(&self.buffer).is_err()
            || parcel.write_i32(self.source_type).is_err()
            || parcel.write_i32(self.drag_num).is_err()
            || parcel.write_i32(self.pointer_id).is_err()
            || parcel.write_i32(self.display_x).is_err()
            || parcel.write_i32(self.display_y).is_err()
            || parcel.write_i32(self.display_id).is_err()
            || parcel.write_bool(self.has_canceled_animation).is_err() {
            return Err(ParcelError::Overflow);
        }
        assert(parcel@.fields =~= p0.fields + self.wire());
        Ok(())
    }
}

impl Deserialize for DragData {
    open spec fn shape() -> Seq<Kind> {
        seq![Kind::Bytes, Kind::I32, Kind::I32, Kind::I32, Kind::I32, Kind::I32, Kind::I32, Kind::Bool]
    }

    proof fn lemma_wire_shape(&self) {
        assert(kinds(self.wire()) =~= Self::shape());
    }

    fn deserialize(parcel: &mut Parcel) -> (r: Result<Self, ParcelError>) {
        let ghost p0 = parcel@;
        let ghost u = p0.unread();
        let ghost shape = Self::shape();
        let start = parcel.position();

        proof {
            lemma_read_step(u, shape, 0);
            assert(u.skip(0) =~= u);
        }
        let buffer = match parcel.read_bytes() {
            Ok(v) => v,
            Err(e) => return Err(e),
        };

        proof {
            lemma_unread_advanced(p0, 1);
            lemma_read_step(u, shape, 1);
        }
        let source_type = match parcel.read_i32() {
            Ok(v) => v,
            Err(e) => {
                parcel.rewind(start);
                return Err(e);
            },
        };

        proof {
            lemma_unread_advanced(p0, 2);
            lemma_read_step(u, shape, 2);
        }
        let drag_num = match parcel.read_i32() {
            Ok(v) => v,
            Err(e) => {
                parcel.rewind(start);
                return Err(e);
            },
        };

        proof {
            lemma_unread_advanced(p0, 3);
            lemma_read_step(u, shape, 3);
        }
        let pointer_id = match parcel.read_i32() {
            Ok(v) => v,
            Err(e) => {
                parcel.rewind(start);
                return Err(e);
            },
        };

        proof {
            lemma_unread_advanced(p0, 4);
            lemma_read_step(u, shape, 4);
        }
        let display_x = match parcel.read_i32() {
            Ok(v) => v,
            Err(e) => {
                parcel.rewind(start);
                return Err(e);
            },
        };

        proof {
            lemma_unread_advanced(p0, 5);
            lemma_read_step(u, shape, 5);
        }
        let display_y = match parcel.read_i32() {
            Ok(v) => v,
            Err(e) => {
                parcel.rewind(start);
                return Err(e);
            },
        };

        proof {
            lemma_unread_advanced(p0, 6);
            lemma_read_step(u, shape, 6);
        }
        let display_id = match parcel.read_i32() {
            Ok(v) => v,
            Err(e) => {
                parcel.rewind(start);
                return Err(e);
            },
        };

        proof {
            lemma_unread_advanced(p0, 7);
            lemma_read_step(u, shape, 7);
        }
        let has_canceled_animation = match parcel.read_bool() {
            Ok(v) => v,
            Err(e) => {
                parcel.rewind(start);
                return Err(e);
            },
        };

        let r = DragData { buffer, source_type, drag_num, pointer_id, display_x, display_y, display_id, has_canceled_animation };
        assert(r.wire() =~= u.take(8));
        Ok(r)
    }
}

impl DragData {
    /// A record is determined by its encoding: two records written as the same
    /// fields are equal field by field.
    pub proof fn lemma_wire_injective(a: DragData, b: DragData)
        requires
            a.wire() == b.wire(),
        ensures
            a.buffer@ == b.buffer@,
            a.source_type == b.source_type,
            a.drag_num == b.drag_num,
            a.pointer_id == b.pointer_id,
            a.display_x == b.display_x,
            a.display_y == b.display_y,
            a.display_id == b.display_id,
            a.has_canceled_animation == b.has_canceled_animation,
    {
        assert(a.wire()[0] == Field::Bytes(a.buffer@) && b.wire()[0] == Field::Bytes(b.buffer@));
        assert(a.wire()[1] == Field::I32(a.source_type) && b.wire()[1] == Field::I32(b.source_type));
        assert(a.wire()[2] == Field::I32(a.drag_num) && b.wire()[2] == Field::I32(b.drag_num));
        assert(a.wire()[3] == Field::I32(a.pointer_id) && b.wire()[3] == Field::I32(b.pointer_id));
        assert(a.wire()[4] == Field::I32(a.display_x) && b.wire()[4] == Field::I32(b.display_x));
        assert(a.wire()[5] == Field::I32(a.display_y) && b.wire()[5] == Field::I32(b.display_y));
        assert(a.wire()[6] == Field::I32(a.display_id) && b.wire()[6] == Field::I32(b.display_id));
        assert(a.wire()[7] == Field::Bool(a.has_canceled_animation) && b.wire()[7] == Field::Bool(b.has_canceled_animation));
        assert(a.wire()[0] == b.wire()[0]);
        assert(a.wire()[1] == b.wire()[1]);
        assert(a.wire()[2] == b.wire()[2]);
        assert(a.wire()[3] == b.wire()[3]);
        assert(a.wire()[4] == b.wire()[4]);
        assert(a.wire()[5] == b.wire()[5]);
        assert(a.wire()[6] == b.wire()[6]);
        assert(a.wire()[7] == b.wire()[7]);
    }
}

/// Client of the drag intention. It holds no connection: each call is framed
/// on the connection it is handed.
#[derive(Debug, Default)]
pub struct DragClient(pub i32);

impl DragClient {
    /// A client with no state.
    pub fn new() -> (r: Self)
        ensures
            r.0 == 0,
    {
        DragClient(0)
    }

    /// Frames the request that asks the service to start a drag of `drag_data`:
    /// a `start` call on the drag intention.
    pub fn start_drag<R>(&self, drag_data: &DragData, ipc_client: &FusionIpcClient<R>) -> (r:
        FusionResult<Request>)
        ensures
            ipc_client.dispatched(Operation::Start, Intention::Drag, drag_data.wire(), r),
    {
        ipc_client.start(Intention::Drag, drag_data)
    }

    /// What a start-drag call reports, from its transport outcome and its reply
    /// buffer: the status the service wrote, or `Fail` when the call failed or
    /// the reply holds no status.
    pub fn start_drag_reply(&self, call: FusionResult<i32>, reply: &mut Parcel) -> (r: FusionResult<
        i32,
    >)
        requires
            old(reply).wf(),
        ensures
            final(reply).wf(),
            r == reply_status(call, old(reply)@.unread()),
            r is Ok ==> final(reply)@ == old(reply)@.advanced(1),
            r is Err ==> final(reply)@ == old(reply)@,
    {
        DefaultReply::status_of(call, reply)
    }
}

} // verus!

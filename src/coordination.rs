//! Request records of the coordination intention.

use vstd::prelude::*;
use crate::parcel::{
    kinds, lemma_read_step, lemma_unread_advanced, Deserialize, Field, Kind, Parcel, ParcelError,
    Serialize,
};

verus! {

/// Parameters of a coordination request that carries only the caller's correlation id.
#[derive(Clone, Copy, Debug, Default, PartialEq, Eq, Structural)]
pub struct GeneralCoordinationParam {
    /// Correlation id chosen by the caller, echoed back in notifications.
    pub user_data: i32,
}

impl Serialize for GeneralCoordinationParam {
    open spec fn wire(&self) -> Seq<Field> {
        seq![
            Field::I32(self.user_data),
        ]
    }

    fn serialize(&self, parcel: &mut Parcel) -> (r: Result<(), ParcelError>) {
        if parcel.room() < 1 {
            return Err(ParcelError::Overflow);
        }
        let ghost p0 = parcel@;
        if parcel.write_i32(self.user_data).is_err() {
            return Err(ParcelError::Overflow);
        }
        assert(parcel@.fields =~= p0.fields + self.wire());
        Ok(())
    }
}

impl Deserialize for GeneralCoordinationParam {
    open spec fn shape() -> Seq<Kind> {
        seq![Kind::I32]
    }

    proof fn lemma_wire_shape(&self) {
        assert(kinds(self.wire()) =~= Self::shape());
    }

    fn deserialize(parcel: &mut Parcel) -> (r: Result<Self, ParcelError>) {
        let ghost p0 = parcel@;
        let ghost u = p0.unread();
        let ghost shape = Self::shape();
        let start = parcel.position();

        proof {
            lemma_read_step(u, shape, 0);
            assert(u.skip(0) =~= u);
        }
        let user_data = match parcel.read_i32() {
            Ok(v) => v,
            Err(e) => return Err(e),
        };

        let r = GeneralCoordinationParam { user_data };
        assert(r.wire() =~= u.take(1));
        Ok(r)
    }
}

impl GeneralCoordinationParam {
    /// A record is determined by its encoding: two records written as the same
    /// fields are equal field by field.
    pub proof fn lemma_wire_injective(a: GeneralCoordinationParam, b: GeneralCoordinationParam)
        requires
            a.wire() == b.wire(),
        ensures
            a.user_data == b.user_data,
            a == b,
    {
        assert(a.wire()[0] == Field::I32(a.user_data) && b.wire()[0] == Field::I32(b.user_data));
        assert(a.wire()[0] == b.wire()[0]);
    }
}

/// Parameters of a request to start coordination with a remote device.
#[derive(Debug)]
pub struct StartCoordinationParam {
    /// Correlation id chosen by the caller, echoed back in notifications.
    pub user_data: i32,
    /// Device the coordination starts from.
    pub start_device_id: i32,
    /// Network id of the remote device.
    pub remote_network_id: String,
}

impl Serialize for StartCoordinationParam {
    open spec fn wire(&self) -> Seq<Field> {
        seq![
            Field::I32(self.user_data),
            Field::I32(self.start_device_id),
            Field::Str(self.remote_network_id@),
        ]
    }

    fn serialize(&self, parcel: &mut Parcel) -> (r: Result<(), ParcelError>) {
        if parcel.room() < 3 {
            return Err(ParcelError::Overflow);
        }
        let ghost p0 = parcel@;
        if parcel.write_i32(self.user_data).is_err()
            || parcel.write_i32(self.start_device_id).is_err()
            || parcel.write_string(&self.remote_network_id).is_err() {
            return Err(ParcelError::Overflow);
        }
        assert(parcel@.fields =~= p0.fields + self.wire());
        Ok(())
    }
}

impl Deserialize for StartCoordinationParam {
    open spec fn shape() -> Seq<Kind> {
        seq![Kind::I32, Kind::I32, Kind::Str]
    }

    proof fn lemma_wire_shape(&self) {
        assert(kinds(self.wire()) =~= Self::shape());
    }

    fn deserialize(parcel: &mut Parcel) -> (r: Result<Self, ParcelError>) {
        let ghost p0 = parcel@;
        let ghost u = p0.unread();
        let ghost shape = Self::shape();
        let start = parcel.position();

        proof {
            lemma_read_step(u, shape, 0);
            assert(u.skip(0) =~= u);
        }
        let user_data = match parcel.read_i32() {
            Ok(v) => v,
            Err(e) => return Err(e),
        };

        proof {
            lemma_unread_advanced(p0, 1);
            lemma_read_step(u, shape, 1);
        }
        let start_device_id = match parcel.read_i32() {
            Ok(v) => v,
            Err(e) => {
                parcel.rewind(start);
                return Err(e);
            },
        };

        proof {
            lemma_unread_advanced(p0, 2);
            lemma_read_step(u, shape, 2);
        }
        let remote_network_id = match parcel.read_string() {
            Ok(v) => v,
            Err(e) => {
                parcel.rewind(start);
                return Err(e);
            },
        };

        let r = StartCoordinationParam { user_data, start_device_id, remote_network_id };
        assert(r.wire() =~= u.take(3));
        Ok(r)
    }
}

impl StartCoordinationParam {
    /// A record is determined by its encoding: two records written as the same
    /// fields are equal field by field.
    pub proof fn lemma_wire_injective(a: StartCoordinationParam, b: StartCoordinationParam)
        requires
            a.wire() == b.wire(),
        ensures
            a.user_data == b.user_data,
            a.start_device_id == b.start_device_id,
            a.remote_network_id@ == b.remote_network_id@,
    {
        assert(a.wire()[0] == Field::I32(a.user_data) && b.wire()[0] == Field::I32(b.user_data));
        assert(a.wire()[1] == Field::I32(a.start_device_id) && b.wire()[1] == Field::I32(b.start_device_id));
        assert(a.wire()[2] == Field::Str(a.remote_network_id@) && b.wire()[2] == Field::Str(b.remote_network_id@));
        assert(a.wire()[0] == b.wire()[0]);
        assert(a.wire()[1] == b.wire()[1]);
        assert(a.wire()[2] == b.wire()[2]);
    }
}

/// Parameters of a request to stop coordination.
#[derive(Clone, Copy, Debug, PartialEq, Eq, Structural)]
pub struct StopCoordinationParam {
    /// Correlation id chosen by the caller, echoed back in notifications.
    pub user_data: i32,
    /// Non-zero when the stop is a final detach.
    pub is_unchained: i32,
}

impl Serialize for StopCoordinationParam {
    open spec fn wire(&self) -> Seq<Field> {
        seq![
            Field::I32(self.user_data),
            Field::I32(self.is_unchained),
        ]
    }

    fn serialize(&self, parcel: &mut Parcel) -> (r: Result<(), ParcelError>) {
        if parcel.room() < 2 {
            return Err(ParcelError::Overflow);
        }
        let ghost p0 = parcel@;
        if parcel.write_i32(self.user_data).is_err()
            || parcel.write_i32(self.is_unchained).is_err() {
            return Err(ParcelError::Overflow);
        }
        assert(parcel@.fields =~= p0.fields + self.wire());
        Ok(())
    }
}

impl Deserialize for StopCoordinationParam {
    open spec fn shape() -> Seq<Kind> {
        seq![Kind::I32, Kind::I32]
    }

    proof fn lemma_wire_shape(&self) {
        assert(kinds(self.wire()) =~= Self::shape());
    }

    fn deserialize(parcel: &mut Parcel) -> (r: Result<Self, ParcelError>) {
        let ghost p0 = parcel@;
        let ghost u = p0.unread();
        let ghost shape = Self::shape();
        let start = parcel.position();

        proof {
            lemma_read_step(u, shape, 0);
            assert(u.skip(0) =~= u);
        }
        let user_data = match parcel.read_i32() {
            Ok(v) => v,
            Err(e) => return Err(e),
        };

        proof {
            lemma_unread_advanced(p0, 1);
            lemma_read_step(u, shape, 1);
        }
        let is_unchained = match parcel.read_i32() {
            Ok(v) => v,
            Err(e) => {
                parcel.rewind(start);
                return Err(e);
            },
        };

        let r = StopCoordinationParam { user_data, is_unchained };
        assert(r.wire() =~= u.take(2));
        Ok(r)
    }
}

impl StopCoordinationParam {
    /// A record is determined by its encoding: two records written as the same
    /// fields are equal field by field.
    pub proof fn lemma_wire_injective(a: StopCoordinationParam, b: StopCoordinationParam)
        requires
            a.wire() == b.wire(),
        ensures
            a.user_data == b.user_data,
            a.is_unchained == b.is_unchained,
            a == b,
    {
        assert(a.wire()[0] == Field::I32(a.user_data) && b.wire()[0] == Field::I32(b.user_data));
        assert(a.wire()[1] == Field::I32(a.is_unchained) && b.wire()[1] == Field::I32(b.is_unchained));
        assert(a.wire()[0] == b.wire()[0]);
        assert(a.wire()[1] == b.wire()[1]);
    }
}

/// Parameters of a request for the coordination state of a device.
#[derive(Debug)]
pub struct GetCoordinationStateParam {
    /// Correlation id chosen by the caller, echoed back in notifications.
    pub user_data: i32,
    /// Device whose state is asked for.
    pub device_id: String,
}

impl Serialize for GetCoordinationStateParam {
    open spec fn wire(&self) -> Seq<Field> {
        seq![
            Field::I32(self.user_data),
            Field::Str(self.device_id@),
        ]
    }

    fn serialize(&self, parcel: &mut Parcel) -> (r: Result<(), ParcelError>) {
        if parcel.room() < 2 {
            return Err(ParcelError::Overflow);
        }
        let ghost p0 = parcel@;
        if parcel.write_i32(self.user_data).is_err()
            || parcel.write_string(&self.device_id).is_err() {
            return Err(ParcelError::Overflow);
        }
        assert(parcel@.fields =~= p0.fields + self.wire());
        Ok(())
    }
}

impl Deserialize for GetCoordinationStateParam {
    open spec fn shape() -> Seq<Kind> {
        seq![Kind::I32, Kind::Str]
    }

    proof fn lemma_wire_shape(&self) {
        assert(kinds(self.wire()) =~= Self::shape());
    }

    fn deserialize(parcel: &mut Parcel) -> (r: Result<Self, ParcelError>) {
        let ghost p0 = parcel@;
        let ghost u = p0.unread();
        let ghost shape = Self::shape();
        let start = parcel.position();

        proof {
            lemma_read_step(u, shape, 0);
            assert(u.skip(0) =~= u);
        }
        let user_data = match parcel.read_i32() {
            Ok(v) => v,
            Err(e) => return Err(e),
        };

        proof {
            lemma_unread_advanced(p0, 1);
            lemma_read_step(u, shape, 1);
        }
        let device_id = match parcel.read_string() {
            Ok(v) => v,
            Err(e) => {
                parcel.rewind(start);
                return Err(e);
            },
        };

        let r = GetCoordinationStateParam { user_data, device_id };
        assert(r.wire() =~= u.take(2));
        Ok(r)
    }
}

impl GetCoordinationStateParam {
    /// A record is determined by its encoding: two records written as the same
    /// fields are equal field by field.
    pub proof fn lemma_wire_injective(a: GetCoordinationStateParam, b: GetCoordinationStateParam)
        requires
            a.wire() == b.wire(),
        ensures
            a.user_data == b.user_data,
            a.device_id@ == b.device_id@,
    {
        assert(a.wire()[0] == Field::I32(a.user_data) && b.wire()[0] == Field::I32(b.user_data));
        assert(a.wire()[1] == Field::Str(a.device_id@) && b.wire()[1] == Field::Str(b.device_id@));
        assert(a.wire()[0] == b.wire()[0]);
        assert(a.wire()[1] == b.wire()[1]);
    }
}

} // verus!

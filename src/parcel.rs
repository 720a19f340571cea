//! The field codec: an ordered buffer of typed fields with a read cursor.
//!
//! Writers append fields at the end; readers take them from the cursor in
//! the order they were written. A read that finds no field left fails with
//! `Truncated`, one that finds a field of another kind with `Malformed`;
//! a failed read leaves the buffer as it was.

use vstd::prelude::*;

verus! {

/// Largest number of fields a buffer can be asked to hold.
pub const MAX_PARCEL_CAPACITY: usize = 4096;

/// Number of fields a buffer made by `Parcel::new` can hold.
pub const DEFAULT_PARCEL_CAPACITY: usize = 4096;

/// One field as it stands in a buffer, in mathematical terms.
pub enum Field {
    I32(i32),
    Bool(bool),
    Str(Seq<char>),
    Bytes(Seq<u8>),
    Token(Seq<char>),
}

/// The kind of a field, which a reader must ask for to take it.
#[derive(Clone, Copy, Debug, PartialEq, Eq, Structural)]
pub enum Kind {
    I32,
    Bool,
    Str,
    Bytes,
    Token,
}

impl Field {
    pub open spec fn kind(self) -> Kind {
        match self {
            Field::I32(_) => Kind::I32,
            Field::Bool(_) => Kind::Bool,
            Field::Str(_) => Kind::Str,
            Field::Bytes(_) => Kind::Bytes,
            Field::Token(_) => Kind::Token,
        }
    }
}

/// The kinds of a sequence of fields, one for one.
pub open spec fn kinds(s: Seq<Field>) -> Seq<Kind> {
    s.map_values(|f: Field| f.kind())
}

/// Whether the fields at the head of `s` have, one for one, the kinds of `shape`.
pub open spec fn fits(s: Seq<Field>, shape: Seq<Kind>) -> bool {
    &&& shape.len() <= s.len()
    &&& forall|i: int| 0 <= i < shape.len() ==> #[trigger] s[i].kind() == shape[i]
}

/// The error of reading fields of kinds `shape`, in order, from `s` when they do
/// not fit: `Truncated` when `s` runs out before any kind differs, else `Malformed`.
pub open spec fn shape_error(s: Seq<Field>, shape: Seq<Kind>) -> ParcelError {
    if s.len() < shape.len() && (forall|i: int| 0 <= i < s.len() ==> #[trigger] s[i].kind() == shape[i]) {
        ParcelError::Truncated
    } else {
        ParcelError::Malformed
    }
}

/// `s` with its elements at `i` and `j` exchanged.
pub open spec fn swapped<A>(s: Seq<A>, i: int, j: int) -> Seq<A> {
    s.update(i, s[j]).update(j, s[i])
}

/// Failure of a codec operation.
#[derive(Clone, Copy, Debug, PartialEq, Eq, Structural)]
pub enum ParcelError {
    /// No field is left to read.
    Truncated,
    /// The next field is not of the kind asked for, or does not hold what was expected.
    Malformed,
    /// The buffer has no room for another field.
    Overflow,
    /// The interface token names another interface than the one expected.
    InterfaceMismatch,
}

/// One field as it is held in a buffer.
#[derive(Debug)]
pub enum Datum {
    I32(i32),
    Bool(bool),
    Str(String),
    Bytes(Vec<u8>),
    Token(String),
}

impl Datum {
    /// The kind of this field.
    pub fn kind(&self) -> (k: Kind)
        ensures
            k == self@.kind(),
    {
        match self {
            Datum::I32(_) => Kind::I32,
            Datum::Bool(_) => Kind::Bool,
            Datum::Str(_) => Kind::Str,
            Datum::Bytes(_) => Kind::Bytes,
            Datum::Token(_) => Kind::Token,
        }
    }
}

impl View for Datum {
    type V = Field;

    open spec fn view(&self) -> Field {
        match self {
            Datum::I32(v) => Field::I32(*v),
            Datum::Bool(b) => Field::Bool(*b),
            Datum::Str(s) => Field::Str(s@),
            Datum::Bytes(b) => Field::Bytes(b@),
            Datum::Token(t) => Field::Token(t@),
        }
    }
}

/// What a buffer holds: its fields, the read cursor and its room.
pub struct ParcelView {
    pub fields: Seq<Field>,
    pub read_pos: nat,
    pub capacity: nat,
}

impl ParcelView {
    /// The fields not read yet.
    pub open spec fn unread(self) -> Seq<Field> {
        self.fields.skip(self.read_pos as int)
    }

    /// Whether `n` more fields can be written.
    pub open spec fn has_room(self, n: nat) -> bool {
        self.fields.len() + n <= self.capacity
    }

    /// The same buffer with `s` written at its end.
    pub open spec fn appended(self, s: Seq<Field>) -> ParcelView {
        ParcelView { fields: self.fields + s, read_pos: self.read_pos, capacity: self.capacity }
    }

    /// The same buffer with `n` more fields read.
    pub open spec fn advanced(self, n: nat) -> ParcelView {
        ParcelView { fields: self.fields, read_pos: self.read_pos + n, capacity: self.capacity }
    }

    /// A buffer that holds `s`, none of it read, with room for `capacity` fields.
    pub open spec fn fresh(s: Seq<Field>, capacity: nat) -> ParcelView {
        ParcelView { fields: s, read_pos: 0, capacity }
    }
}

/// An ordered buffer of fields with a read cursor.
#[derive(Debug)]
pub struct Parcel {
    data: Vec<Datum>,
    read_pos: usize,
    capacity: usize,
}

impl View for Parcel {
    type V = ParcelView;

    closed spec fn view(&self) -> ParcelView {
        ParcelView {
            fields: self.data@.map_values(|d: Datum| d@),
            read_pos: self.read_pos as nat,
            capacity: self.capacity as nat,
        }
    }
}

impl Parcel {
    /// The cursor stands within what was written, and what was written within the room.
    pub open spec fn wf(&self) -> bool {
        &&& self@.read_pos <= self@.fields.len()
        &&& self@.fields.len() <= self@.capacity
        &&& self@.capacity <= MAX_PARCEL_CAPACITY
    }

    /// An empty buffer with the default room.
    pub fn new() -> (r: Parcel)
        ensures
            r.wf(),
            r@ == ParcelView::fresh(Seq::empty(), DEFAULT_PARCEL_CAPACITY as nat),
    {
        let r = Parcel { data: Vec::new(), read_pos: 0, capacity: DEFAULT_PARCEL_CAPACITY };
        assert(r@.fields =~= Seq::empty());
        r
    }

    /// An empty buffer with room for `capacity` fields; `None` when more is
    /// asked for than a buffer can have.
    pub fn with_capacity(capacity: usize) -> (r: Option<Parcel>)
        ensures
            r is Some <==> capacity <= MAX_PARCEL_CAPACITY,
            r matches Some(p) ==> p.wf() && p@ == ParcelView::fresh(Seq::empty(), capacity as nat),
    {
        if capacity > MAX_PARCEL_CAPACITY {
            return None;
        }
        let r = Parcel { data: Vec::new(), read_pos: 0, capacity };
        assert(r@.fields =~= Seq::empty());
        Some(r)
    }

    /// Number of fields written so far.
    pub fn len(&self) -> (r: usize)
        ensures
            r == self@.fields.len(),
    {
        self.data.len()
    }

    /// Number of fields that can still be written.
    pub fn room(&self) -> (r: usize)
        requires
            self.wf(),
        ensures
            r == self@.capacity - self@.fields.len(),
    {
        self.capacity - self.data.len()
    }

    /// Number of fields not read yet.
    pub fn remaining(&self) -> (r: usize)
        requires
            self.wf(),
        ensures
            r == self@.unread().len(),
    {
        self.data.len() - self.read_pos
    }

    /// The read cursor.
    pub fn position(&self) -> (r: usize)
        ensures
            r == self@.read_pos,
    {
        self.read_pos
    }

    /// Puts the read cursor back to `pos`, at or before where it stands.
    pub fn rewind(&mut self, pos: usize)
        requires
            old(self).wf(),
            pos <= old(self)@.read_pos,
        ensures
            final(self).wf(),
            final(self)@ == (ParcelView { read_pos: pos as nat, ..old(self)@ }),
    {
        self.read_pos = pos;
    }

    fn push(&mut self, d: Datum) -> (r: Result<(), ParcelError>)
        requires
            old(self).wf(),
        ensures
            final(self).wf(),
            r is Ok <==> old(self)@.has_room(1),
            r is Ok ==> final(self)@ == old(self)@.appended(seq![d@]),
            r is Err ==> r == Err::<(), ParcelError>(ParcelError::Overflow) && final(self)@ == old(self)@,
    {
        if self.data.len() >= self.capacity {
            return Err(ParcelError::Overflow);
        }
        let ghost before = self.data@;
        self.data.push(d);
        proof {
            assert(self.data@.map_values(|x: Datum| x@) =~= before.map_values(|x: Datum| x@) + seq![d@]);
        }
        Ok(())
    }

    /// Appends a 32-bit signed integer.
    pub fn write_i32(&mut self, v: i32) -> (r: Result<(), ParcelError>)
        requires
            old(self).wf(),
        ensures
            final(self).wf(),
            r is Ok <==> old(self)@.has_room(1),
            r is Ok ==> final(self)@ == old(self)@.appended(seq![Field::I32(v)]),
            r is Err ==> r == Err::<(), ParcelError>(ParcelError::Overflow) && final(self)@ == old(self)@,
    {
        self.push(Datum::I32(v))
    }

    /// Appends a flag.
    pub fn write_bool(&mut self, v: bool) -> (r: Result<(), ParcelError>)
        requires
            old(self).wf(),
        ensures
            final(self).wf(),
            r is Ok <==> old(self)@.has_room(1),
            r is Ok ==> final(self)@ == old(self)@.appended(seq![Field::Bool(v)]),
            r is Err ==> r == Err::<(), ParcelError>(ParcelError::Overflow) && final(self)@ == old(self)@,
    {
        self.push(Datum::Bool(v))
    }

    /// Appends a string.
    pub fn write_string(&mut self, v: &String) -> (r: Result<(), ParcelError>)
        requires
            old(self).wf(),
        ensures
            final(self).wf(),
            r is Ok <==> old(self)@.has_room(1),
            r is Ok ==> final(self)@ == old(self)@.appended(seq![Field::Str(v@)]),
            r is Err ==> r == Err::<(), ParcelError>(ParcelError::Overflow) && final(self)@ == old(self)@,
    {
        self.push(Datum::Str(v.clone()))
    }

    /// Appends a byte buffer.
    pub fn write_bytes(&mut self, v: &Vec<u8>) -> (r: Result<(), ParcelError>)
        requires
            old(self).wf(),
        ensures
            final(self).wf(),
            r is Ok <==> old(self)@.has_room(1),
            r is Ok ==> final(self)@ == old(self)@.appended(seq![Field::Bytes(v@)]),
            r is Err ==> r == Err::<(), ParcelError>(ParcelError::Overflow) && final(self)@ == old(self)@,
    {
        self.push(Datum::Bytes(copy_bytes(v)))
    }

    /// Appends an interface token naming `descriptor`.
    pub fn write_interface_token(&mut self, descriptor: &str) -> (r: Result<(), ParcelError>)
        requires
            old(self).wf(),
        ensures
            final(self).wf(),
            r is Ok <==> old(self)@.has_room(1),
            r is Ok ==> final(self)@ == old(self)@.appended(seq![Field::Token(descriptor@)]),
            r is Err ==> r == Err::<(), ParcelError>(ParcelError::Overflow) && final(self)@ == old(self)@,
    {
        self.push(Datum::Token(descriptor.to_owned()))
    }

    /// Whether the next unread field is of kind `k`.
    fn check_next(&self, k: Kind) -> (r: Result<(), ParcelError>)
        requires
            self.wf(),
        ensures
            r is Ok <==> fits(self@.unread(), seq![k]),
            r matches Err(e) ==> e == shape_error(self@.unread(), seq![k]),
    {
        if self.read_pos >= self.data.len() {
            return Err(ParcelError::Truncated);
        }
        let found = self.data[self.read_pos].kind();
        assert(self@.unread()[0] == self.data@[self.read_pos as int]@);
        if found == k {
            Ok(())
        } else {
            Err(ParcelError::Malformed)
        }
    }

    fn advance(&mut self)
        requires
            old(self).wf(),
            old(self)@.unread().len() > 0,
        ensures
            final(self).wf(),
            final(self)@ == old(self)@.advanced(1),
    {
        self.read_pos = self.read_pos + 1;
    }

    /// Reads a 32-bit signed integer.
    pub fn read_i32(&mut self) -> (r: Result<i32, ParcelError>)
        requires
            old(self).wf(),
        ensures
            final(self).wf(),
            r is Ok <==> fits(old(self)@.unread(), seq![Kind::I32]),
            r matches Ok(v) ==> old(self)@.unread()[0] == Field::I32(v) && final(self)@
                == old(self)@.advanced(1),
            r matches Err(e) ==> e == shape_error(old(self)@.unread(), seq![Kind::I32])
                && final(self)@ == old(self)@,
    {
        if let Err(e) = self.check_next(Kind::I32) {
            return Err(e);
        }
        assert(old(self)@.unread()[0] == self.data@[self.read_pos as int]@);
        assert(old(self)@.unread()[0].kind() == Kind::I32);
        let v = match &self.data[self.read_pos] {
            Datum::I32(v) => *v,
            _ => return Err(ParcelError::Malformed),
        };
        self.advance();
        Ok(v)
    }

    /// Reads a flag.
    pub fn read_bool(&mut self) -> (r: Result<bool, ParcelError>)
        requires
            old(self).wf(),
        ensures
            final(self).wf(),
            r is Ok <==> fits(old(self)@.unread(), seq![Kind::Bool]),
            r matches Ok(v) ==> old(self)@.unread()[0] == Field::Bool(v) && final(self)@
                == old(self)@.advanced(1),
            r matches Err(e) ==> e == shape_error(old(self)@.unread(), seq![Kind::Bool])
                && final(self)@ == old(self)@,
    {
        if let Err(e) = self.check_next(Kind::Bool) {
            return Err(e);
        }
        assert(old(self)@.unread()[0] == self.data@[self.read_pos as int]@);
        assert(old(self)@.unread()[0].kind() == Kind::Bool);
        let v = match &self.data[self.read_pos] {
            Datum::Bool(v) => *v,
            _ => return Err(ParcelError::Malformed),
        };
        self.advance();
        Ok(v)
    }

    /// Reads a string.
    pub fn read_string(&mut self) -> (r: Result<String, ParcelError>)
        requires
            old(self).wf(),
        ensures
            final(self).wf(),
            r is Ok <==> fits(old(self)@.unread(), seq![Kind::Str]),
            r matches Ok(v) ==> old(self)@.unread()[0] == Field::Str(v@) && final(self)@
                == old(self)@.advanced(1),
            r matches Err(e) ==> e == shape_error(old(self)@.unread(), seq![Kind::Str])
                && final(self)@ == old(self)@,
    {
        if let Err(e) = self.check_next(Kind::Str) {
            return Err(e);
        }
        assert(old(self)@.unread()[0] == self.data@[self.read_pos as int]@);
        assert(old(self)@.unread()[0].kind() == Kind::Str);
        let v = match &self.data[self.read_pos] {
            Datum::Str(v) => v.clone(),
            _ => return Err(ParcelError::Malformed),
        };
        self.advance();
        Ok(v)
    }

    /// Reads a byte buffer.
    pub fn read_bytes(&mut self) -> (r: Result<Vec<u8>, ParcelError>)
        requires
            old(self).wf(),
        ensures
            final(self).wf(),
            r is Ok <==> fits(old(self)@.unread(), seq![Kind::Bytes]),
            r matches Ok(v) ==> old(self)@.unread()[0] == Field::Bytes(v@) && final(self)@
                == old(self)@.advanced(1),
            r matches Err(e) ==> e == shape_error(old(self)@.unread(), seq![Kind::Bytes])
                && final(self)@ == old(self)@,
    {
        if let Err(e) = self.check_next(Kind::Bytes) {
            return Err(e);
        }
        assert(old(self)@.unread()[0] == self.data@[self.read_pos as int]@);
        assert(old(self)@.unread()[0].kind() == Kind::Bytes);
        let v = match &self.data[self.read_pos] {
            Datum::Bytes(v) => copy_bytes(v),
            _ => return Err(ParcelError::Malformed),
        };
        self.advance();
        Ok(v)
    }

    /// Reads an interface token and returns the descriptor it names.
    pub fn read_interface_token(&mut self) -> (r: Result<String, ParcelError>)
        requires
            old(self).wf(),
        ensures
            final(self).wf(),
            r is Ok <==> fits(old(self)@.unread(), seq![Kind::Token]),
            r matches Ok(v) ==> old(self)@.unread()[0] == Field::Token(v@) && final(self)@
                == old(self)@.advanced(1),
            r matches Err(e) ==> e == shape_error(old(self)@.unread(), seq![Kind::Token])
                && final(self)@ == old(self)@,
    {
        if let Err(e) = self.check_next(Kind::Token) {
            return Err(e);
        }
        assert(old(self)@.unread()[0] == self.data@[self.read_pos as int]@);
        assert(old(self)@.unread()[0].kind() == Kind::Token);
        let v = match &self.data[self.read_pos] {
            Datum::Token(v) => v.clone(),
            _ => return Err(ParcelError::Malformed),
        };
        self.advance();
        Ok(v)
    }
}

fn copy_bytes(v: &Vec<u8>) -> (r: Vec<u8>)
    ensures
        r@ == v@,
{
    let mut r: Vec<u8> = Vec::with_capacity(v.len());
    let mut i: usize = 0;
    while i < v.len()
        invariant
            i <= v.len(),
            r@ == v@.subrange(0, i as int),
        decreases v.len() - i,
    {
        r.push(v[i]);
        i = i + 1;
    }
    assert(r@ =~= v@);
    r
}

/// A value that writes itself into a buffer as a fixed sequence of fields.
pub trait Serialize {
    /// The fields this value is written as, in order.
    spec fn wire(&self) -> Seq<Field>;

    /// Appends `self.wire()` to `parcel`, or changes nothing when it has no room.
    fn serialize(&self, parcel: &mut Parcel) -> (r: Result<(), ParcelError>)
        requires
            old(parcel).wf(),
        ensures
            final(parcel).wf(),
            r is Ok <==> old(parcel)@.has_room(self.wire().len()),
            r is Ok ==> final(parcel)@ == old(parcel)@.appended(self.wire()),
            r is Err ==> r == Err::<(), ParcelError>(ParcelError::Overflow) && final(parcel)@
                == old(parcel)@,
    ;
}

/// A record that reads itself back from a buffer.
pub trait Deserialize: Serialize + Sized {
    /// The kinds of the fields of every value of this type, in order.
    spec fn shape() -> Seq<Kind>;

    /// Every value is written as fields of the kinds of `shape()`.
    proof fn lemma_wire_shape(&self)
        ensures
            kinds(self.wire()) == Self::shape(),
    ;

    /// Reads one record from the cursor. On success the fields read are exactly
    /// the value's `wire()`; on failure the buffer is left as it was.
    fn deserialize(parcel: &mut Parcel) -> (r: Result<Self, ParcelError>)
        requires
            old(parcel).wf(),
        ensures
            final(parcel).wf(),
            r is Ok <==> fits(old(parcel)@.unread(), Self::shape()),
            r matches Ok(v) ==> v.wire() == old(parcel)@.unread().take(Self::shape().len() as int)
                && final(parcel)@ == old(parcel)@.advanced(Self::shape().len()),
            r matches Err(e) ==> e == shape_error(old(parcel)@.unread(), Self::shape())
                && final(parcel)@ == old(parcel)@,
    ;
}

/// Encoding then decoding gives the value back: whatever follows a record's
/// fields, they fit its shape, and the fields a decoder takes are exactly the
/// record's own.
pub proof fn lemma_round_trip<T: Deserialize>(r: T, rest: Seq<Field>)
    ensures
        fits(r.wire() + rest, T::shape()),
        (r.wire() + rest).take(T::shape().len() as int) == r.wire(),
{
    r.lemma_wire_shape();
    let w = r.wire();
    assert(w.len() == T::shape().len()) by {
        assert(kinds(w).len() == w.len());
    }
    assert forall|i: int| 0 <= i < T::shape().len() implies #[trigger] (w + rest)[i].kind()
        == T::shape()[i] by {
        assert(kinds(w)[i] == w[i].kind());
    }
    assert((w + rest).take(T::shape().len() as int) =~= w);
}

/// Field order carries meaning: exchanging two fields of a record's encoding
/// makes decoding fail when the two are of different kinds; when they are of
/// the same kind, decoding takes the exchanged fields, which differ from the
/// record's own whenever the two values differ.
pub proof fn lemma_order_matters<T: Deserialize>(r: T, i: int, j: int, rest: Seq<Field>)
    requires
        0 <= i < j < T::shape().len(),
    ensures
        T::shape()[i] != T::shape()[j] ==> !fits(swapped(r.wire(), i, j) + rest, T::shape()),
        T::shape()[i] == T::shape()[j] ==> fits(swapped(r.wire(), i, j) + rest, T::shape()),
        r.wire()[i] != r.wire()[j] ==> swapped(r.wire(), i, j) != r.wire(),
{
    r.lemma_wire_shape();
    let w = r.wire();
    let s = swapped(w, i, j);
    assert(w.len() == T::shape().len()) by {
        assert(kinds(w).len() == w.len());
    }
    assert forall|k: int| 0 <= k < w.len() implies #[trigger] w[k].kind() == T::shape()[k] by {
        assert(kinds(w)[k] == w[k].kind());
    }
    if T::shape()[i] != T::shape()[j] {
        assert((s + rest)[i].kind() == w[j].kind());
    }
    if T::shape()[i] == T::shape()[j] {
        assert forall|k: int| 0 <= k < T::shape().len() implies #[trigger] (s + rest)[k].kind()
            == T::shape()[k] by {
            if k == i {
                assert((s + rest)[k] == w[j]);
            } else if k == j {
                assert((s + rest)[k] == w[i]);
            } else {
                assert((s + rest)[k] == w[k]);
            }
        }
    }
    if w[i] != w[j] {
        assert(s[i] == w[j]);
    }
}

} // verus!

verus! {

/// After `k` more fields are read, what is left unread is the old rest without its first `k`.
pub proof fn lemma_unread_advanced(p: ParcelView, k: nat)
    requires
        p.read_pos + k <= p.fields.len(),
    ensures
        p.advanced(k).unread() == p.unread().skip(k as int),
{
    assert(p.advanced(k).unread() =~= p.unread().skip(k as int));
}

/// Reading field `k` of a record whose first `k` fields were read: a single read
/// at `u.skip(k)` decides whether the first `k + 1` fields fit, and when it fails
/// its error is the error of reading the whole record.
pub proof fn lemma_read_step(u: Seq<Field>, shape: Seq<Kind>, k: int)
    requires
        0 <= k < shape.len(),
        k <= u.len(),
        forall|i: int| 0 <= i < k ==> #[trigger] u[i].kind() == shape[i],
    ensures
        fits(u.skip(k), seq![shape[k]]) ==> u.skip(k)[0] == u[k] && forall|i: int|
            0 <= i < k + 1 ==> #[trigger] u[i].kind() == shape[i],
        !fits(u.skip(k), seq![shape[k]]) ==> !fits(u, shape) && shape_error(u, shape)
            == shape_error(u.skip(k), seq![shape[k]]),
{
    if k < u.len() {
        assert(u.skip(k)[0] == u[k]);
        assert(u.skip(k)[0].kind() == u[k].kind());
    }
    if !fits(u.skip(k), seq![shape[k]]) {
        if k < u.len() {
            assert(u[k].kind() != shape[k]);
            assert(!(forall|i: int| 0 <= i < u.len() ==> #[trigger] u[i].kind() == shape[i]));
        }
    }
}

} // verus!

//! Input-side records: pointer style, extra drag data, and the opaque events
//! that the native input service hands out.

use vstd::prelude::*;

verus! {

/// A pointer event owned by the native input service; never looked into here.
pub struct CPointerEvent {
    _private: [u8; 0],
}

/// A key event owned by the native input service; never looked into here.
pub struct CKeyEvent {
    _private: [u8; 0],
}

/// An axis event owned by the native input service; never looked into here.
pub struct CAxisEvent {
    _private: [u8; 0],
}

/// Colour of the pointer.
#[derive(Clone, Copy, Debug, PartialEq, Eq, Structural)]
pub struct CPointerStyleColor {
    pub r: u8,
    pub g: u8,
    pub b: u8,
}

/// Style of the pointer: its size, colour and style id.
#[derive(Clone, Copy, Debug, PartialEq, Eq, Structural)]
pub struct CPointerStyle {
    pub size: i32,
    pub color: CPointerStyleColor,
    pub id: i32,
}

/// Extra data appended to the pointer events of a drag.
#[derive(Debug)]
pub struct CExtraData {
    pub appended: bool,
    pub buffer: Vec<u8>,
    pub source_type: i32,
    pub pointer_id: i32,
}

impl CPointerStyle {
    /// The style before any is fetched: no size, black, style id zero.
    pub fn new() -> (r: Self)
        ensures
            r == (CPointerStyle { size: -1i32, color: CPointerStyleColor { r: 0, g: 0, b: 0 }, id: 0 }),
    {
        CPointerStyle { size: -1i32, color: CPointerStyleColor { r: 0, g: 0, b: 0 }, id: 0 }
    }
}

impl Default for CPointerStyle {
    /// The style before any is fetched, as `new` makes it.
    fn default() -> (r: Self)
        ensures
            r == (CPointerStyle { size: -1i32, color: CPointerStyleColor { r: 0, g: 0, b: 0 }, id: 0 }),
    {
        CPointerStyle::new()
    }
}

/// The pointer style last fetched from the input service.
#[derive(Debug)]
pub struct PointerStyle {
    inner: CPointerStyle,
}

impl View for PointerStyle {
    type V = CPointerStyle;

    closed spec fn view(&self) -> CPointerStyle {
        self.inner
    }
}

impl PointerStyle {
    /// A pointer style holding the default style.
    pub fn new() -> (r: Self)
        ensures
            r@ == (CPointerStyle { size: -1i32, color: CPointerStyleColor { r: 0, g: 0, b: 0 }, id: 0 }),
    {
        PointerStyle { inner: CPointerStyle::new() }
    }

    /// The style held.
    pub fn inner(&self) -> (r: CPointerStyle)
        ensures
            r == self@,
    {
        self.inner
    }

    /// Takes in the outcome of a style query to the input service: the style
    /// the query left becomes the style held, whatever its status; the result
    /// is `Ok(0)` on status zero and `Err(-1)` on any other.
    pub fn pointer_style(&mut self, status: i32, fetched: CPointerStyle) -> (r: Result<i32, i32>)
        ensures
            final(self)@ == fetched,
            status == 0 ==> r == Ok::<i32, i32>(0),
            status != 0 ==> r == Err::<i32, i32>(-1i32),
    {
        self.inner = fetched;
        if status == 0 {
            Ok(0)
        } else {
            Err(-1)
        }
    }
}

impl Default for PointerStyle {
    /// A pointer style holding the default style, as `new` makes it.
    fn default() -> (r: Self)
        ensures
            r@ == (CPointerStyle { size: -1i32, color: CPointerStyleColor { r: 0, g: 0, b: 0 }, id: 0 }),
    {
        PointerStyle::new()
    }
}

} // verus!

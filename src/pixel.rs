//! Element types that can stand for one pixel, each with its client format.

use crate::format::ClientFormat;
use vstd::prelude::*;

verus! {

/// A type whose values are one pixel each: plain data that may move to another
/// thread. The texture data contracts also ask that it be `Copy`.
pub trait PixelValue: Send + Sized {
    /// The client format of this element type.
    spec fn client_format() -> ClientFormat;

    /// Returns the format of the pixels; the argument only names the type.
    fn get_format(_hint: Option<Self>) -> (r: ClientFormat)
        ensures
            r == Self::client_format(),
    ;
}

/// Every call of `get_format` for one element type returns the same format.
pub proof fn lemma_format_deterministic<P: PixelValue>(a: ClientFormat, b: ClientFormat)
    requires
        call_ensures(P::get_format, (None::<P>,), a),
        call_ensures(P::get_format, (None::<P>,), b),
    ensures
        a == b,
{
}

impl PixelValue for u8 {
    open spec fn client_format() -> ClientFormat {
        ClientFormat::U8
    }

    fn get_format(_hint: Option<Self>) -> (r: ClientFormat) {
        ClientFormat::U8
    }
}

impl PixelValue for (u8, u8) {
    open spec fn client_format() -> ClientFormat {
        ClientFormat::U8U8
    }

    fn get_format(_hint: Option<Self>) -> (r: ClientFormat) {
        ClientFormat::U8U8
    }
}

impl PixelValue for (u8, u8, u8) {
    open spec fn client_format() -> ClientFormat {
        ClientFormat::U8U8U8
    }

    fn get_format(_hint: Option<Self>) -> (r: ClientFormat) {
        ClientFormat::U8U8U8
    }
}

impl PixelValue for (u8, u8, u8, u8) {
    open spec fn client_format() -> ClientFormat {
        ClientFormat::U8U8U8U8
    }

    fn get_format(_hint: Option<Self>) -> (r: ClientFormat) {
        ClientFormat::U8U8U8U8
    }
}

impl PixelValue for i8 {
    open spec fn client_format() -> ClientFormat {
        ClientFormat::I8
    }

    fn get_format(_hint: Option<Self>) -> (r: ClientFormat) {
        ClientFormat::I8
    }
}

impl PixelValue for (i8, i8) {
    open spec fn client_format() -> ClientFormat {
        ClientFormat::I8I8
    }

    fn get_format(_hint: Option<Self>) -> (r: ClientFormat) {
        ClientFormat::I8I8
    }
}

impl PixelValue for (i8, i8, i8) {
    open spec fn client_format() -> ClientFormat {
        ClientFormat::I8I8I8
    }

    fn get_format(_hint: Option<Self>) -> (r: ClientFormat) {
        ClientFormat::I8I8I8
    }
}

impl PixelValue for (i8, i8, i8, i8) {
    open spec fn client_format() -> ClientFormat {
        ClientFormat::I8I8I8I8
    }

    fn get_format(_hint: Option<Self>) -> (r: ClientFormat) {
        ClientFormat::I8I8I8I8
    }
}

impl PixelValue for u16 {
    open spec fn client_format() -> ClientFormat {
        ClientFormat::U16
    }

    fn get_format(_hint: Option<Self>) -> (r: ClientFormat) {
        ClientFormat::U16
    }
}

impl PixelValue for (u16, u16) {
    open spec fn client_format() -> ClientFormat {
        ClientFormat::U16U16
    }

    fn get_format(_hint: Option<Self>) -> (r: ClientFormat) {
        ClientFormat::U16U16
    }
}

impl PixelValue for (u16, u16, u16) {
    open spec fn client_format() -> ClientFormat {
        ClientFormat::U16U16U16
    }

    fn get_format(_hint: Option<Self>) -> (r: ClientFormat) {
        ClientFormat::U16U16U16
    }
}

impl PixelValue for (u16, u16, u16, u16) {
    open spec fn client_format() -> ClientFormat {
        ClientFormat::U16U16U16U16
    }

    fn get_format(_hint: Option<Self>) -> (r: ClientFormat) {
        ClientFormat::U16U16U16U16
    }
}

impl PixelValue for i16 {
    open spec fn client_format() -> ClientFormat {
        ClientFormat::I16
    }

    fn get_format(_hint: Option<Self>) -> (r: ClientFormat) {
        ClientFormat::I16
    }
}

impl PixelValue for (i16, i16) {
    open spec fn client_format() -> ClientFormat {
        ClientFormat::I16I16
    }

    fn get_format(_hint: Option<Self>) -> (r: ClientFormat) {
        ClientFormat::I16I16
    }
}

impl PixelValue for (i16, i16, i16) {
    open spec fn client_format() -> ClientFormat {
        ClientFormat::I16I16I16
    }

    fn get_format(_hint: Option<Self>) -> (r: ClientFormat) {
        ClientFormat::I16I16I16
    }
}

impl PixelValue for (i16, i16, i16, i16) {
    open spec fn client_format() -> ClientFormat {
        ClientFormat::I16I16I16I16
    }

    fn get_format(_hint: Option<Self>) -> (r: ClientFormat) {
        ClientFormat::I16I16I16I16
    }
}

impl PixelValue for u32 {
    open spec fn client_format() -> ClientFormat {
        ClientFormat::U32
    }

    fn get_format(_hint: Option<Self>) -> (r: ClientFormat) {
        ClientFormat::U32
    }
}

impl PixelValue for (u32, u32) {
    open spec fn client_format() -> ClientFormat {
        ClientFormat::U32U32
    }

    fn get_format(_hint: Option<Self>) -> (r: ClientFormat) {
        ClientFormat::U32U32
    }
}

impl PixelValue for (u32, u32, u32) {
    open spec fn client_format() -> ClientFormat {
        ClientFormat::U32U32U32
    }

    fn get_format(_hint: Option<Self>) -> (r: ClientFormat) {
        ClientFormat::U32U32U32
    }
}

impl PixelValue for (u32, u32, u32, u32) {
    open spec fn client_format() -> ClientFormat {
        ClientFormat::U32U32U32U32
    }

    fn get_format(_hint: Option<Self>) -> (r: ClientFormat) {
        ClientFormat::U32U32U32U32
    }
}

impl PixelValue for i32 {
    open spec fn client_format() -> ClientFormat {
        ClientFormat::I32
    }

    fn get_format(_hint: Option<Self>) -> (r: ClientFormat) {
        ClientFormat::I32
    }
}

impl PixelValue for (i32, i32) {
    open spec fn client_format() -> ClientFormat {
        ClientFormat::I32I32
    }

    fn get_format(_hint: Option<Self>) -> (r: ClientFormat) {
        ClientFormat::I32I32
    }
}

impl PixelValue for (i32, i32, i32) {
    open spec fn client_format() -> ClientFormat {
        ClientFormat::I32I32I32
    }

    fn get_format(_hint: Option<Self>) -> (r: ClientFormat) {
        ClientFormat::I32I32I32
    }
}

impl PixelValue for (i32, i32, i32, i32) {
    open spec fn client_format() -> ClientFormat {
        ClientFormat::I32I32I32I32
    }

    fn get_format(_hint: Option<Self>) -> (r: ClientFormat) {
        ClientFormat::I32I32I32I32
    }
}

} // verus!

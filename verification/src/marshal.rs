//! Host values in the shape the native side takes them.
//!
//! Integers cross unchanged, in the width and signedness that the native
//! entry declares. A boolean crosses as one byte, `0` or `1`, and comes back
//! as true for any nonzero byte. Text crosses as a terminated buffer that
//! lives for the one call it was made for. Another widget crosses as its
//! object reference alone; the table it was bound with stays behind.

use vstd::prelude::*;
use crate::refs::ObjectRef;
use crate::text::is_native_text;

verus! {

/// The native byte that stands for `value`.
pub open spec fn spec_encode_bool(value: bool) -> u8 {
    if value {
        1u8
    } else {
        0u8
    }
}

/// The host boolean that a native byte stands for: any nonzero byte is true.
pub open spec fn spec_decode_bool(raw: u8) -> bool {
    raw != 0u8
}

/// Encodes a boolean argument: `1` for true, `0` for false.
#[verifier::when_used_as_spec(spec_encode_bool)]
pub fn encode_bool(value: bool) -> (raw: u8)
    ensures
        raw == spec_encode_bool(value),
{
    if value {
        1
    } else {
        0
    }
}

/// Decodes a boolean that a native entry returned: zero is false, every
/// other byte is true.
#[verifier::when_used_as_spec(spec_decode_bool)]
pub fn decode_bool(raw: u8) -> (value: bool)
    ensures
        value == spec_decode_bool(raw),
{
    raw != 0
}

/// A boolean that crosses to the native side and back is unchanged, and an
/// encoded boolean is zero exactly when it was false.
pub proof fn lemma_bool_round_trip(value: bool)
    ensures
        decode_bool(encode_bool(value)) == value,
        encode_bool(value) == 0 <==> !value,
        encode_bool(value) <= 1,
{
}

/// The native shapes an argument can have.
#[derive(Clone, Copy, Debug, PartialEq, Eq, Structural)]
pub enum ArgKind {
    /// A signed 32-bit integer.
    Int,
    /// An unsigned 32-bit integer.
    UInt,
    /// A boolean in one byte.
    Bool,
    /// A pointer to a terminated byte buffer.
    Text,
    /// The address of a native object.
    Object,
}

/// One argument of a native call, already in native shape.
#[derive(Debug, PartialEq, Eq)]
pub enum NativeArg {
    Int(i32),
    UInt(u32),
    /// The byte made by [`encode_bool`].
    Bool(u8),
    /// The buffer made by [`crate::text::marshal_text`], terminator included.
    Text(Vec<u8>),
    Object(ObjectRef),
}

/// What a [`NativeArg`] holds, as a mathematical value.
#[verifier::ext_equal]
pub enum ArgView {
    Int(i32),
    UInt(u32),
    Bool(u8),
    Text(Seq<u8>),
    Object(ObjectRef),
}

impl ArgView {
    /// The native shape of this argument.
    pub open spec fn kind(self) -> ArgKind {
        match self {
            ArgView::Int(_) => ArgKind::Int,
            ArgView::UInt(_) => ArgKind::UInt,
            ArgView::Bool(_) => ArgKind::Bool,
            ArgView::Text(_) => ArgKind::Text,
            ArgView::Object(_) => ArgKind::Object,
        }
    }

    /// The argument is one that marshalling can have made: a boolean byte is
    /// `0` or `1`, and a text buffer ends in its only terminator.
    pub open spec fn well_formed(self) -> bool {
        match self {
            ArgView::Bool(raw) => raw <= 1,
            ArgView::Text(buf) => is_native_text(buf),
            _ => true,
        }
    }
}

impl View for NativeArg {
    type V = ArgView;

    open spec fn view(&self) -> ArgView {
        match self {
            NativeArg::Int(v) => ArgView::Int(*v),
            NativeArg::UInt(v) => ArgView::UInt(*v),
            NativeArg::Bool(raw) => ArgView::Bool(*raw),
            NativeArg::Text(buf) => ArgView::Text(buf@),
            NativeArg::Object(obj) => ArgView::Object(*obj),
        }
    }
}

} // verus!

//! The closed model of the JSON values that cross the gateway's boundary.
//!
//! Inbound parameter values and outbound column values are both modelled as
//! closed tagged unions, matched exhaustively: there is no default-accept
//! branch anywhere in the engine.  Floating-point payloads are carried as
//! their IEEE-754 bit patterns, so the engine never computes with them; the
//! surrounding process converts at the boundary.

use vstd::prelude::*;

verus! {

/// The numeric forms a JSON number takes after the boundary has classified
/// it: an unsigned 64-bit integer, a signed 64-bit integer, or a
/// double-precision float carried as its bit pattern.
#[derive(Clone, Copy, PartialEq, Eq, Structural, Debug)]
pub enum JsonNum {
    /// A non-negative integer (the boundary uses this form only when the
    /// signed form cannot represent the number).
    U(u64),
    /// A signed integer.
    I(i64),
    /// The bit pattern of a 64-bit float, for numbers that are not integral.
    F(u64),
}

/// An inbound JSON value, as handed to the engine for parameter binding.
/// `Arr` keeps its elements because a parameter list is itself an array;
/// objects are only ever rejected, so `Obj` carries nothing.
#[derive(Debug)]
pub enum JsonValue {
    Null,
    Bool(bool),
    Num(JsonNum),
    Str(String),
    Arr(Vec<JsonValue>),
    Obj,
}

/// An outbound JSON value: what one decoded result column becomes.
/// Integer columns are widened losslessly to 64 bits; float columns keep
/// their width through the carried bit pattern; temporal columns arrive
/// here already formatted as text.
#[derive(Debug)]
pub enum JsonOut {
    Null,
    Bool(bool),
    I(i64),
    U(u64),
    /// The bit pattern of a 32-bit float column.
    F32Bits(u32),
    /// The bit pattern of a 64-bit float column.
    F64Bits(u64),
    Str(String),
    /// A JSON column passed through verbatim, as its serialized text.
    JsonText(String),
}

} // verus!

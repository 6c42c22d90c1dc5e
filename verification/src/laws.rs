//! Laws that cut across the binder and the decoder.

use vstd::prelude::*;

use crate::bind::{bound_of_scalar, BoundParam};
use crate::decode::{
    column_shape_ok, column_shaped, kind_of_name, ColumnFetch, DecodeKind, RawValue,
};
use crate::json::{JsonNum, JsonOut, JsonValue};

verus! {

/// A 64-bit unsigned integer beyond the signed range binds as the
/// unsigned 64-bit parameter with the identical value, and that value
/// fetched back from an unsigned 64-bit column shapes to the identical
/// JSON number — and to nothing else.  No precision loss, no sign flip,
/// in either direction.
pub proof fn lemma_u64_round_trip(v: u64, c: ColumnFetch)
    requires
        v > i64::MAX as u64,
        !c.is_null,
        kind_of_name(c.native_type@) == DecodeKind::U64,
        c.fetched == Option::Some(Result::<RawValue, String>::Ok(RawValue::U(v))),
    ensures
        bound_of_scalar(JsonValue::Num(JsonNum::U(v))) == BoundParam::U64(v),
        column_shape_ok(c),
        column_shaped(c, JsonOut::U(v)),
        forall|out: JsonOut| column_shaped(c, out) ==> out == JsonOut::U(v),
{
}

/// A NULL column decodes to JSON null and never to an error, whatever
/// native type the column reports: every decode path passes NULL through.
pub proof fn lemma_null_decodes_to_null(c: ColumnFetch)
    requires
        c.is_null,
    ensures
        column_shape_ok(c),
        forall|out: JsonOut| column_shaped(c, out) <==> out is Null,
{
}

} // verus!

//! The parameter binder: converts an ordered JSON array into positional
//! bound parameters.
//!
//! Each scalar maps deterministically: a string binds as text, a boolean as
//! a boolean, `null` as SQL NULL, and a number preserves its sign and
//! width: unsigned 64-bit when it is a non-negative integer beyond the
//! signed range, signed 64-bit otherwise, and double precision when it is
//! not integral.  Arrays and objects inside the parameter list are
//! rejected, never coerced.

use vstd::prelude::*;

use crate::json::{JsonNum, JsonValue};

verus! {

/// A positional parameter in the form the database driver binds it.
#[derive(Debug)]
pub enum BoundParam {
    Text(String),
    Bool(bool),
    I64(i64),
    U64(u64),
    /// The bit pattern of a double-precision parameter.
    F64Bits(u64),
    Null,
}

/// How a classified JSON number binds: the unsigned form is kept only
/// beyond the signed 64-bit range, so signedness and width are preserved.
pub open spec fn bound_of_num(n: JsonNum) -> BoundParam {
    match n {
        JsonNum::U(u) => if u > i64::MAX as u64 {
            BoundParam::U64(u)
        } else {
            BoundParam::I64(u as i64)
        },
        JsonNum::I(i) => BoundParam::I64(i),
        JsonNum::F(bits) => BoundParam::F64Bits(bits),
    }
}

/// The JSON values that may stand in a parameter list: scalars and null.
pub open spec fn scalar_bindable(v: JsonValue) -> bool {
    match v {
        JsonValue::Null => true,
        JsonValue::Bool(_) => true,
        JsonValue::Num(_) => true,
        JsonValue::Str(_) => true,
        JsonValue::Arr(_) => false,
        JsonValue::Obj => false,
    }
}

/// What a bindable JSON value binds as.
pub open spec fn bound_of_scalar(v: JsonValue) -> BoundParam
    recommends
        scalar_bindable(v),
{
    match v {
        JsonValue::Null => BoundParam::Null,
        JsonValue::Bool(b) => BoundParam::Bool(b),
        JsonValue::Num(n) => bound_of_num(n),
        JsonValue::Str(s) => BoundParam::Text(s),
        JsonValue::Arr(_) => BoundParam::Null,
        JsonValue::Obj => BoundParam::Null,
    }
}

/// Binds one value of a parameter list.  Succeeds exactly on the scalar
/// forms, and then returns the deterministic mapping `bound_of_scalar`.
pub fn bind_scalar(v: &JsonValue) -> (r: Result<BoundParam, String>)
    ensures
        r is Ok <==> scalar_bindable(*v),
        r is Ok ==> r->Ok_0 == bound_of_scalar(*v),
{
    match v {
        JsonValue::Null => Ok(BoundParam::Null),
        JsonValue::Bool(b) => Ok(BoundParam::Bool(*b)),
        JsonValue::Num(n) => match n {
            JsonNum::U(u) => {
                if *u > i64::MAX as u64 {
                    Ok(BoundParam::U64(*u))
                } else {
                    Ok(BoundParam::I64(*u as i64))
                }
            },
            JsonNum::I(i) => Ok(BoundParam::I64(*i)),
            JsonNum::F(bits) => Ok(BoundParam::F64Bits(*bits)),
        },
        JsonValue::Str(s) => Ok(BoundParam::Text(s.clone())),
        JsonValue::Arr(_) => Err(String::from_str(
            "parameter values must be scalars: nested arrays are not accepted",
        )),
        JsonValue::Obj => Err(String::from_str(
            "parameter values must be scalars: objects are not accepted",
        )),
    }
}

/// Every element of the sequence may stand in a parameter list.
pub open spec fn values_bindable(vs: Seq<JsonValue>) -> bool {
    forall|i: int| 0 <= i < vs.len() ==> scalar_bindable(#[trigger] vs[i])
}

/// The positional parameters an all-scalar sequence binds to, in order.
pub open spec fn bound_of_values(vs: Seq<JsonValue>) -> Seq<BoundParam> {
    vs.map_values(|v: JsonValue| bound_of_scalar(v))
}

/// Binds a whole parameter array, in array order.  Succeeds exactly when
/// every element is a scalar form; the first offending element's error is
/// returned otherwise.
pub fn bind_values(vs: &Vec<JsonValue>) -> (r: Result<Vec<BoundParam>, String>)
    ensures
        r is Ok <==> values_bindable(vs@),
        r is Ok ==> r->Ok_0@ == bound_of_values(vs@),
{
    let mut out: Vec<BoundParam> = Vec::new();
    let mut i: usize = 0;
    while i < vs.len()
        invariant
            0 <= i <= vs.len(),
            out@.len() == i,
            forall|j: int| 0 <= j < i ==> scalar_bindable(#[trigger] vs@[j]),
            forall|j: int| 0 <= j < i ==> out@[j] == bound_of_scalar(#[trigger] vs@[j]),
        decreases vs.len() - i,
    {
        match bind_scalar(&vs[i]) {
            Ok(p) => {
                out.push(p);
            },
            Err(e) => {
                return Err(e);
            },
        }
        i += 1;
    }
    proof {
        assert(out@ =~= bound_of_values(vs@));
    }
    Ok(out)
}

/// The binder's view of an item's optional `values` field: absent means no
/// parameters; present, it must be an array of scalars.
pub open spec fn params_bindable(values: Option<JsonValue>) -> bool {
    match values {
        Option::None => true,
        Option::Some(v) => match v {
            JsonValue::Arr(xs) => values_bindable(xs@),
            _ => false,
        },
    }
}

/// What an item's optional `values` field binds to.
pub open spec fn bound_of_params(values: Option<JsonValue>) -> Seq<BoundParam>
    recommends
        params_bindable(values),
{
    match values {
        Option::None => Seq::empty(),
        Option::Some(v) => match v {
            JsonValue::Arr(xs) => bound_of_values(xs@),
            _ => Seq::empty(),
        },
    }
}

/// Binds one present parameter source: the value must be an array of
/// scalars.
pub fn bind_array(v: &JsonValue) -> (r: Result<Vec<BoundParam>, String>)
    ensures
        r is Ok <==> params_bindable(Some(*v)),
        r is Ok ==> r->Ok_0@ == bound_of_params(Some(*v)),
{
    match v {
        JsonValue::Arr(xs) => bind_values(xs),
        _ => Err(String::from_str("Values must be array.")),
    }
}

/// Binds an item's optional `values` field.  A present value that is not
/// an array is rejected, as is any non-scalar element.
pub fn bind_params(values: &Option<JsonValue>) -> (r: Result<Vec<BoundParam>, String>)
    ensures
        r is Ok <==> params_bindable(*values),
        r is Ok ==> r->Ok_0@ == bound_of_params(*values),
{
    match values {
        Option::None => Ok(Vec::new()),
        Option::Some(v) => bind_array(v),
    }
}

} // verus!

//! Property values attached to events and persons.
//!
//! A caller supplies [`PropScalar`] values; a built property list holds
//! [`PropValue`] entries, which add the one-level object shape that `$set`
//! payloads use.  The runtime layer serializes a property list into a JSON
//! object in entry order, so a later entry with the same key overrides an
//! earlier one.

use vstd::prelude::*;

use serde_json::Value;

verus! {

/// A property value a caller attaches to an event or a person: arbitrary
/// JSON, a string, or a boolean.
#[derive(Debug, Clone)]
pub enum PropScalar {
    Json(Value),
    Text(String),
    Boolean(bool),
}

/// A property value in a built property list: a caller-supplied value, or a
/// one-level object of scalar properties.
#[derive(Debug, Clone)]
pub enum PropValue {
    Json(Value),
    Text(String),
    Boolean(bool),
    Object(Vec<(String, PropScalar)>),
}

/// The `PropValue` a scalar property becomes in a built list.
pub open spec fn promoted(s: PropScalar) -> PropValue {
    match s {
        PropScalar::Json(v) => PropValue::Json(v),
        PropScalar::Text(t) => PropValue::Text(t),
        PropScalar::Boolean(b) => PropValue::Boolean(b),
    }
}

/// An exact copy of one scalar property value.
pub fn clone_scalar(s: &PropScalar) -> (r: PropScalar)
    ensures
        r == *s,
{
    match s {
        PropScalar::Json(v) => PropScalar::Json(v.clone()),
        PropScalar::Text(t) => PropScalar::Text(t.clone()),
        PropScalar::Boolean(b) => PropScalar::Boolean(*b),
    }
}

/// An exact copy of a scalar property value, promoted into a built list.
pub fn promote_scalar(s: &PropScalar) -> (r: PropValue)
    ensures
        r == promoted(*s),
{
    match s {
        PropScalar::Json(v) => PropValue::Json(v.clone()),
        PropScalar::Text(t) => PropValue::Text(t.clone()),
        PropScalar::Boolean(b) => PropValue::Boolean(*b),
    }
}

/// An exact copy of a list of scalar properties.
pub fn clone_scalars(props: &Vec<(String, PropScalar)>) -> (r: Vec<(String, PropScalar)>)
    ensures
        r@ == props@,
{
    let mut out: Vec<(String, PropScalar)> = Vec::new();
    let mut i: usize = 0;
    while i < props.len()
        invariant
            i <= props@.len(),
            out@ =~= props@.take(i as int),
        decreases props@.len() - i,
    {
        let (k, v) = &props[i];
        out.push((k.clone(), clone_scalar(v)));
        i = i + 1;
        proof {
            assert(out@ =~= props@.take(i as int));
        }
    }
    proof {
        assert(props@.take(props@.len() as int) =~= props@);
    }
    out
}

} // verus!

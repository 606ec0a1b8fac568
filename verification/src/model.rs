//! A mathematical model of a JSON document: what a parsed wire value
//! contains, independent of how the parsing library represents it.
use vstd::prelude::*;

verus! {

/// The content of a JSON value. A number is carried as its literal token
/// text, so that the telemetry readings of the wire format pass through
/// this system without loss; a string is carried as its unescaped
/// character content; an object is a finite map from member names to
/// member values.
pub enum JsonModel {
    Null,
    Bool(bool),
    Num(Seq<char>),
    Str(Seq<char>),
    Arr(Seq<JsonModel>),
    Obj(Map<Seq<char>, JsonModel>),
}

/// The members of an object model, if the model is an object.
pub open spec fn obj_of(m: JsonModel) -> Option<Map<Seq<char>, JsonModel>> {
    match m {
        JsonModel::Obj(o) => Some(o),
        _ => None,
    }
}

/// The member of an object under a name, if present.
pub open spec fn member(o: Map<Seq<char>, JsonModel>, k: Seq<char>) -> Option<JsonModel> {
    if o.contains_key(k) {
        Some(o[k])
    } else {
        None
    }
}

/// Content the wire library writes and reads back unchanged, within the
/// nesting budget `n`: every node lies within the budget (the reader
/// refuses documents nested beyond its recursion limit), and every number
/// token is in the reader's normalized form (the reader rewrites any
/// other spelling as it scans, so only these pass through unchanged).
/// Everything the reader yields satisfies this with the budget the
/// library grants.
pub open spec fn wire_ready(m: JsonModel, n: int) -> bool
    decreases n,
{
    &&& n >= 1
    &&& match m {
        JsonModel::Null => true,
        JsonModel::Bool(_) => true,
        JsonModel::Num(t) => crate::numtext::is_normal_number_token(t),
        JsonModel::Str(_) => true,
        JsonModel::Arr(a) => forall|i: int| 0 <= i < a.len() ==> wire_ready(#[trigger] a[i], n - 1),
        JsonModel::Obj(o) => forall|k: Seq<char>|
            o.contains_key(k) ==> wire_ready(#[trigger] o[k], n - 1),
    }
}

} // verus!

//! The inner name of a wrapped parameter type.

use crate::parser::inner_type_from_path_segment::{inner_type_from_path_segment, payload_name};
use crate::syntax::{TypeExpression, TypeExpressionView};
use vstd::prelude::*;

verus! {

/// The name that a result or payload wrapper unwraps to, and `any` for
/// every type that does not unwrap.
pub open spec fn inner_param_name(e: TypeExpressionView) -> Seq<char> {
    match payload_name(e) {
        Some(name) => name,
        None => "any"@,
    }
}

/// Extracts the inner parameter type out of a result or payload wrapper.
pub fn _inner_param(type_box: &TypeExpression) -> (name: String)
    ensures
        name@ == inner_param_name(type_box@),
{
    match inner_type_from_path_segment(type_box) {
        Some(name) => name,
        None => "any".to_owned(),
    }
}

} // verus!

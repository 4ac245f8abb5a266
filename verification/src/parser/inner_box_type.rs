//! The inner name of a declared type.

use crate::parser::inner_type_from_path_segment::{inside_payload, inside_result, unwrap_payload,
    unwrap_result};
use crate::syntax::{TypeArgument, TypeArgumentView, TypeExpression, TypeExpressionView};
use crate::text::same_text;
use vstd::prelude::*;

verus! {

/// The name inside a generic type that is neither a result wrapper nor a
/// payload wrapper, with the arguments `args`.
///
/// Without arguments it is `void`. Otherwise only the first argument
/// counts. Where that is a `Vec` with an argument of its own, the name is
/// the name of that argument followed by `[]`, if it has a name; where it
/// is any other named type, the name is its own. Anything else has no
/// name.
pub open spec fn inside_generic(args: Seq<TypeArgumentView>) -> Option<Seq<char>> {
    if args.len() == 0 {
        Some("void"@)
    } else {
        match args[0].expr {
            TypeExpressionView::Generic { name, args: inner } => {
                if name == "Vec"@ && inner.len() > 0 {
                    match inner[0].expr.leaf_name() {
                        Some(element) => Some(element + "[]"@),
                        None => None,
                    }
                } else {
                    Some(name)
                }
            },
            TypeExpressionView::Leaf { name } => Some(name),
            _ => None,
        }
    }
}

/// The name that a declared type stands for towards a client: for a
/// generic type named `Result` the name inside a result wrapper, for one
/// named `Json` that inside a payload wrapper, for any other generic type
/// that inside a generic. A type that is not generic stands for none.
pub open spec fn inner_name(e: TypeExpressionView) -> Option<Seq<char>> {
    match e {
        TypeExpressionView::Generic { name, args } => {
            if name == "Result"@ {
                inside_result(args)
            } else if name == "Json"@ {
                inside_payload(args)
            } else {
                inside_generic(args)
            }
        },
        _ => None,
    }
}

/// Finds the name inside a generic type that is neither a result wrapper
/// nor a payload wrapper, with the arguments `args`.
pub fn unwrap_generic(args: &Vec<TypeArgument>) -> (inner: Option<String>)
    ensures
        inner.deep_view() == inside_generic(args.deep_view()),
{
    if args.len() == 0 {
        return Some("void".to_owned());
    }
    let first = &args[0].expr;
    match first.as_generic() {
        Some((name, inner)) => {
            if same_text(name.as_str(), "Vec") && inner.len() > 0 {
                match inner[0].expr.leaf_name() {
                    Some(element) => {
                        let mut array = element;
                        array.append("[]");
                        Some(array)
                    },
                    None => None,
                }
            } else {
                Some(name.clone())
            }
        },
        None => first.leaf_name(),
    }
}

/// Extracts the innermost type name from a declared type.
///
/// Returns the name where the type matches one of the patterns, such as
/// `Result<Json<T>>` or `Json<T>`, and `None` where it matches none.
pub fn inner_box_type(val: &TypeExpression) -> (inner: Option<String>)
    ensures
        inner.deep_view() == inner_name(val@),
{
    match val.as_generic() {
        Some((name, args)) => {
            if same_text(name.as_str(), "Result") {
                unwrap_result(args)
            } else if same_text(name.as_str(), "Json") {
                unwrap_payload(args)
            } else {
                unwrap_generic(args)
            }
        },
        None => None,
    }
}

} // verus!

//! What a result wrapper and a payload wrapper carry.

use crate::syntax::{TypeArgument, TypeArgumentView, TypeExpression, TypeExpressionView};
use crate::text::same_text;
use vstd::prelude::*;

verus! {

/// The name inside a result wrapper with the arguments `args`.
///
/// Without arguments it is `void`. Otherwise only the first argument
/// counts: where that is a `Json` with an argument of its own, the name is
/// the name of that argument, if it has one. Anything else has no name.
pub open spec fn inside_result(args: Seq<TypeArgumentView>) -> Option<Seq<char>> {
    if args.len() == 0 {
        Some("void"@)
    } else {
        match args[0].expr {
            TypeExpressionView::Generic { name, args: inner } => {
                if name == "Json"@ && inner.len() > 0 {
                    inner[0].expr.leaf_name()
                } else {
                    None
                }
            },
            _ => None,
        }
    }
}

/// The name inside a payload wrapper with the arguments `args`.
///
/// Without arguments it is `void`. Otherwise only the first argument
/// counts. Where that is a named type with arguments of its own, the name
/// is the name of the first of them, if it has one; where it is a named
/// type without arguments, the name is its own. Anything else has no name.
pub open spec fn inside_payload(args: Seq<TypeArgumentView>) -> Option<Seq<char>> {
    if args.len() == 0 {
        Some("void"@)
    } else {
        match args[0].expr {
            TypeExpressionView::Generic { name, args: inner } => {
                if inner.len() > 0 {
                    inner[0].expr.leaf_name()
                } else {
                    Some(name)
                }
            },
            TypeExpressionView::Leaf { name } => Some(name),
            _ => None,
        }
    }
}

/// The name that a result wrapper or a payload wrapper unwraps to: that
/// inside a generic type named `Result`, or else that inside one named
/// `Json`. Any other type unwraps to none.
pub open spec fn payload_name(e: TypeExpressionView) -> Option<Seq<char>> {
    match e {
        TypeExpressionView::Generic { name, args } => {
            if name == "Result"@ {
                inside_result(args)
            } else if name == "Json"@ {
                inside_payload(args)
            } else {
                None
            }
        },
        _ => None,
    }
}

/// Finds the name inside a result wrapper with the arguments `args`.
pub fn unwrap_result(args: &Vec<TypeArgument>) -> (inner: Option<String>)
    ensures
        inner.deep_view() == inside_result(args.deep_view()),
{
    if args.len() == 0 {
        return Some("void".to_owned());
    }
    let first = &args[0].expr;
    match first.as_generic() {
        Some((name, inner)) => {
            if same_text(name.as_str(), "Json") && inner.len() > 0 {
                inner[0].expr.leaf_name()
            } else {
                None
            }
        },
        None => None,
    }
}

/// Finds the name inside a payload wrapper with the arguments `args`.
pub fn unwrap_payload(args: &Vec<TypeArgument>) -> (inner: Option<String>)
    ensures
        inner.deep_view() == inside_payload(args.deep_view()),
{
    if args.len() == 0 {
        return Some("void".to_owned());
    }
    let first = &args[0].expr;
    match first.as_generic() {
        Some((name, inner)) => {
            if inner.len() > 0 {
                inner[0].expr.leaf_name()
            } else {
                Some(name.clone())
            }
        },
        None => first.leaf_name(),
    }
}

/// Unwraps a result wrapper or a payload wrapper to the name inside it.
pub fn inner_type_from_path_segment(segment: &TypeExpression) -> (inner: Option<String>)
    ensures
        inner.deep_view() == payload_name(segment@),
{
    match segment.as_generic() {
        Some((name, args)) => {
            if same_text(name.as_str(), "Result") {
                unwrap_result(args)
            } else if same_text(name.as_str(), "Json") {
                unwrap_payload(args)
            } else {
                None
            }
        },
        None => None,
    }
}

} // verus!

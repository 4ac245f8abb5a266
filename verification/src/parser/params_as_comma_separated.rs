//! The parameter list of a handler, as a client writes it.

use crate::parser::exclusion_parser::should_exclude_type;
use crate::parser::inner_type_from_path_segment::{inner_type_from_path_segment, payload_name};
use crate::syntax::{Parameter, ParameterView, TypeExpression, TypeExpressionView};
use crate::seqs::{lemma_filter_map_after_filter, lemma_filter_map_concat};
use crate::text::{join, joined, same_text};
use vstd::prelude::*;

verus! {

/// Whether `name` is one of the numeric primitives that a client sees as
/// `number`.
pub open spec fn is_numeric_name(name: Seq<char>) -> bool {
    ||| name == "i32"@
    ||| name == "i64"@
    ||| name == "u32"@
    ||| name == "u64"@
    ||| name == "f32"@
    ||| name == "f64"@
    ||| name == "usize"@
}

/// The name under which a client sees the type `name`: `number` for a
/// numeric primitive, and any other name as it is.
pub open spec fn client_name(name: Seq<char>) -> Seq<char> {
    if is_numeric_name(name) {
        "number"@
    } else {
        name
    }
}

/// Maps the name of a type to the name under which a client sees it.
pub fn client_type(name: &str) -> (mapped: String)
    ensures
        mapped@ == client_name(name@),
{
    let numeric = same_text(name, "i32") || same_text(name, "i64") || same_text(name, "u32")
        || same_text(name, "u64") || same_text(name, "f32") || same_text(name, "f64")
        || same_text(name, "usize");
    if numeric {
        "number".to_owned()
    } else {
        name.to_owned()
    }
}

/// What becomes of one declared parameter.
#[derive(Debug, PartialEq, Eq)]
pub enum ParamResolution {
    /// It is left out of the list.
    Dropped,
    /// It is listed, under this name and with this type.
    Entry { name: String, ty: String },
    /// Its type alone stands for the whole list.
    Whole { ty: String },
}

/// What a `ParamResolution` stands for in contracts.
pub ghost enum ParamResolutionView {
    Dropped,
    Entry { name: Seq<char>, ty: Seq<char> },
    Whole { ty: Seq<char> },
}

impl View for ParamResolution {
    type V = ParamResolutionView;

    open spec fn view(&self) -> ParamResolutionView {
        match self {
            ParamResolution::Dropped => ParamResolutionView::Dropped,
            ParamResolution::Entry { name, ty } => ParamResolutionView::Entry {
                name: name@,
                ty: ty@,
            },
            ParamResolution::Whole { ty } => ParamResolutionView::Whole { ty: ty@ },
        }
    }
}

/// What becomes of the parameter `p` under the exclusions `excluded`.
///
/// A parameter that no plain identifier binds is dropped. A reference to
/// a generic type is listed with the source text of that type's first
/// argument, a reference to `str` as `string`; any other reference is
/// dropped. A named type that unwraps as a result or payload wrapper
/// stands for the whole list. Any other named type is dropped where its
/// name is excluded, and else listed under the name a client sees. A
/// type of any other shape is dropped.
pub open spec fn param_resolution(
    p: ParameterView,
    excluded: Seq<Seq<char>>,
) -> ParamResolutionView {
    match p.name {
        None => ParamResolutionView::Dropped,
        Some(name) => match p.ty {
            TypeExpressionView::Reference { referent } => {
                if *referent is Generic {
                    if referent.arguments().len() > 0 {
                        ParamResolutionView::Entry { name, ty: referent.arguments()[0].source }
                    } else {
                        ParamResolutionView::Dropped
                    }
                } else if *referent == (TypeExpressionView::Leaf { name: "str"@ }) {
                    ParamResolutionView::Entry { name, ty: "string"@ }
                } else {
                    ParamResolutionView::Dropped
                }
            },
            TypeExpressionView::Other => ParamResolutionView::Dropped,
            _ => match payload_name(p.ty) {
                Some(ty) => ParamResolutionView::Whole { ty },
                None => {
                    let leaf = p.ty.leaf_name()->0;
                    if excluded.contains(leaf) {
                        ParamResolutionView::Dropped
                    } else {
                        ParamResolutionView::Entry { name, ty: client_name(leaf) }
                    }
                },
            },
        },
    }
}

/// Resolves one declared parameter.
pub fn resolve_param(param: &Parameter, exclusion_list: &[String]) -> (resolution: ParamResolution)
    ensures
        resolution@ == param_resolution(param@, exclusion_list.deep_view()),
{
    let name = match &param.name {
        Some(name) => name,
        None => { return ParamResolution::Dropped; },
    };
    match &param.ty {
        TypeExpression::Reference { referent } => {
            let referent: &TypeExpression = &**referent;
            match referent.as_generic() {
                Some((_, args)) => {
                    if args.len() > 0 {
                        ParamResolution::Entry { name: name.clone(), ty: args[0].source.clone() }
                    } else {
                        ParamResolution::Dropped
                    }
                },
                None => {
                    match referent {
                        TypeExpression::Leaf { name: leaf } => {
                            if same_text(leaf.as_str(), "str") {
                                ParamResolution::Entry {
                                    name: name.clone(),
                                    ty: "string".to_owned(),
                                }
                            } else {
                                ParamResolution::Dropped
                            }
                        },
                        _ => ParamResolution::Dropped,
                    }
                },
            }
        },
        TypeExpression::Other => ParamResolution::Dropped,
        _ => {
            match inner_type_from_path_segment(&param.ty) {
                Some(ty) => ParamResolution::Whole { ty },
                None => {
                    match param.ty.leaf_name() {
                        Some(leaf) => {
                            if should_exclude_type(leaf.clone(), exclusion_list) {
                                ParamResolution::Dropped
                            } else {
                                ParamResolution::Entry {
                                    name: name.clone(),
                                    ty: client_type(leaf.as_str()),
                                }
                            }
                        },
                        None => ParamResolution::Dropped,
                    }
                },
            }
        },
    }
}

/// The entry `name:type` of a parameter that is listed.
pub open spec fn entry_text(p: ParameterView, excluded: Seq<Seq<char>>) -> Option<Seq<char>> {
    match param_resolution(p, excluded) {
        ParamResolutionView::Entry { name, ty } => Some(name + ":"@ + ty),
        _ => None,
    }
}

/// The type of a parameter that stands for the whole list.
pub open spec fn whole_text(p: ParameterView, excluded: Seq<Seq<char>>) -> Option<Seq<char>> {
    match param_resolution(p, excluded) {
        ParamResolutionView::Whole { ty } => Some(ty),
        _ => None,
    }
}

/// `entry_text` under given exclusions, as a function of the parameter.
pub open spec fn entry_of(excluded: Seq<Seq<char>>) -> spec_fn(ParameterView) -> Option<Seq<char>> {
    |p: ParameterView| entry_text(p, excluded)
}

/// `whole_text` under given exclusions, as a function of the parameter.
pub open spec fn whole_of(excluded: Seq<Seq<char>>) -> spec_fn(ParameterView) -> Option<Seq<char>> {
    |p: ParameterView| whole_text(p, excluded)
}

/// The parameter list of a handler as one text.
///
/// Where a parameter stands for the whole list, the text is the type of
/// the first such parameter and nothing else. Otherwise it holds the
/// entries of the listed parameters in their order, with a comma between
/// each two.
pub open spec fn params_text(params: Seq<ParameterView>, excluded: Seq<Seq<char>>) -> Seq<char> {
    let wholes = params.filter_map(whole_of(excluded));
    if wholes.len() > 0 {
        wholes[0]
    } else {
        joined(params.filter_map(entry_of(excluded)), ","@)
    }
}

/// Resolves the parameters of a handler and writes them as one text.
pub fn params_as_comma_separated_str(
    args: Vec<Parameter>,
    exclusion_list: &[String],
) -> (text: String)
    ensures
        text@ == params_text(args.deep_view(), exclusion_list.deep_view()),
{
    let ghost params = args.deep_view();
    let ghost excluded = exclusion_list.deep_view();
    let mut entries: Vec<String> = Vec::new();
    let mut i: usize = 0;
    while i < args.len()
        invariant
            params == args.deep_view(),
            excluded == exclusion_list.deep_view(),
            i <= args@.len(),
            params.take(i as int).filter_map(whole_of(excluded)).len() == 0,
            entries.deep_view() == params.take(i as int).filter_map(entry_of(excluded)),
        decreases args@.len() - i,
    {
        proof {
            params.lemma_filter_map_take_succ(whole_of(excluded), i as int);
            params.lemma_filter_map_take_succ(entry_of(excluded), i as int);
        }
        match resolve_param(&args[i], exclusion_list) {
            ParamResolution::Dropped => {},
            ParamResolution::Entry { name, ty } => {
                let mut entry = name;
                entry.append(":");
                entry.append(ty.as_str());
                entries.push(entry);
            },
            ParamResolution::Whole { ty } => {
                proof {
                    let head = params.take(i + 1);
                    let tail = params.skip(i + 1);
                    assert(head + tail =~= params);
                    lemma_filter_map_concat(head, tail, whole_of(excluded));
                }
                return ty;
            },
        }
        i += 1;
    }
    assert(params.take(i as int) =~= params);
    join(&entries, ",")
}

/// Whether `p` has a named type that does not unwrap and whose name is
/// excluded.
pub open spec fn has_excluded_type(p: ParameterView, excluded: Seq<Seq<char>>) -> bool {
    match p.ty.leaf_name() {
        Some(leaf) => payload_name(p.ty) is None && excluded.contains(leaf),
        None => false,
    }
}

/// The test for a parameter whose type is not excluded.
pub open spec fn type_not_excluded(excluded: Seq<Seq<char>>) -> spec_fn(ParameterView) -> bool {
    |p: ParameterView| !has_excluded_type(p, excluded)
}

/// `params` without the parameters whose type is excluded.
pub open spec fn without_excluded(params: Seq<ParameterView>, excluded: Seq<Seq<char>>) -> Seq<
    ParameterView,
> {
    params.filter(type_not_excluded(excluded))
}

/// A parameter that a plain identifier binds, and whose type is a leaf
/// that is neither a numeric primitive nor excluded, is listed with the
/// name of its type unchanged.
pub proof fn lemma_leaf_type_unchanged(
    binding: Seq<char>,
    leaf: Seq<char>,
    excluded: Seq<Seq<char>>,
)
    requires
        !is_numeric_name(leaf),
        !excluded.contains(leaf),
    ensures
        param_resolution(
            ParameterView { name: Some(binding), ty: TypeExpressionView::Leaf { name: leaf } },
            excluded,
        ) == (ParamResolutionView::Entry { name: binding, ty: leaf }),
{
}

/// The numeric primitives are `i32`, `i64`, `u32`, `u64`, `f32`, `f64` and
/// `usize`. A client sees each of them as `number`, which is none of
/// them, and sees every other name as it is.
pub proof fn lemma_numeric_table(name: Seq<char>)
    ensures
        is_numeric_name("i32"@),
        is_numeric_name("i64"@),
        is_numeric_name("u32"@),
        is_numeric_name("u64"@),
        is_numeric_name("f32"@),
        is_numeric_name("f64"@),
        is_numeric_name("usize"@),
        !is_numeric_name("number"@),
        is_numeric_name(name) ==> client_name(name) == "number"@,
        client_name(name) != name <==> is_numeric_name(name),
{
    reveal_strlit("i32");
    reveal_strlit("i64");
    reveal_strlit("u32");
    reveal_strlit("u64");
    reveal_strlit("f32");
    reveal_strlit("f64");
    reveal_strlit("usize");
    reveal_strlit("number");
    assert("i32"@.len() == 3);
    assert("i64"@.len() == 3);
    assert("u32"@.len() == 3);
    assert("u64"@.len() == 3);
    assert("f32"@.len() == 3);
    assert("f64"@.len() == 3);
    assert("usize"@.len() == 5);
}

/// A parameter whose type is excluded is dropped.
pub proof fn lemma_excluded_is_dropped(p: ParameterView, excluded: Seq<Seq<char>>)
    requires
        has_excluded_type(p, excluded),
    ensures
        param_resolution(p, excluded) is Dropped,
{
}

/// Excluding a type name removes every parameter of that type: the
/// parameter list reads as if no such parameter had been declared.
pub proof fn lemma_exclusion_removes(params: Seq<ParameterView>, excluded: Seq<Seq<char>>)
    ensures
        params_text(params, excluded) == params_text(without_excluded(params, excluded), excluded),
        forall|i: int|
            0 <= i < without_excluded(params, excluded).len() ==> !has_excluded_type(
                #[trigger] without_excluded(params, excluded)[i],
                excluded,
            ),
{
    let keep = type_not_excluded(excluded);
    lemma_filter_map_after_filter(params, keep, whole_of(excluded));
    lemma_filter_map_after_filter(params, keep, entry_of(excluded));
}

} // verus!

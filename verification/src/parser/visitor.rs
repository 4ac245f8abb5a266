//! Finds the route handlers among the function items of a syntax tree.

use crate::syntax::{Attribute, AttributeView, FunctionInput, FunctionInputView, FunctionItem,
    FunctionItemView, Parameter, ParameterView, TypeExpression, TypeExpressionView};
use crate::text::{before_first, prefix_before, same_text, trim_matches, trimmed, CharClass};
use crate::seqs::{lemma_filter_map_concat, lemma_filter_map_none};
use vstd::prelude::*;

verus! {

/// Represents a Rocket request handler.
///
/// This struct holds information about a Rocket request handler, including its name,
/// path, parameters, and return type.
#[derive(Debug, PartialEq, Eq)]
pub struct RocketReqHandler {
    /// The name of the request handler function.
    pub name: String,
    /// The path associated with the request handler.
    pub path: String,
    /// The parameters of the request handler function.
    pub params: Vec<Parameter>,
    /// The return type of the request handler function.
    pub return_type: Option<TypeExpression>,
}

/// What a `RocketReqHandler` stands for in contracts.
pub ghost struct RocketReqHandlerView {
    pub name: Seq<char>,
    pub path: Seq<char>,
    pub params: Seq<ParameterView>,
    pub return_type: Option<TypeExpressionView>,
}

impl View for RocketReqHandler {
    type V = RocketReqHandlerView;

    open spec fn view(&self) -> RocketReqHandlerView {
        RocketReqHandlerView {
            name: self.name@,
            path: self.path@,
            params: self.params.deep_view(),
            return_type: self.return_type.deep_view(),
        }
    }
}

impl DeepView for RocketReqHandler {
    type V = RocketReqHandlerView;

    open spec fn deep_view(&self) -> RocketReqHandlerView {
        self@
    }
}

/// Visitor for traversing Rust syntax tree and extracting Rocket request handlers.
#[derive(Debug, PartialEq, Eq)]
pub struct Visitor {
    /// Vector to store extracted Rocket request handlers.
    pub functions: Vec<RocketReqHandler>,
}

/// The route path that the tokens of a route attribute give: the text
/// without the parentheses around it, cut before its first comma, without
/// the double quotes and the white space around what is left.
pub open spec fn route_path(tokens: Seq<char>) -> Seq<char> {
    trimmed(
        prefix_before(trimmed(tokens, CharClass::Parenthesis), ','),
        CharClass::QuoteOrWhitespace,
    )
}

/// Whether an attribute marks a route handler: the first segment of its
/// path is `get` or `post`.
pub open spec fn is_route_marker(attr: AttributeView) -> bool {
    attr.path.len() > 0 && (attr.path[0] == "get"@ || attr.path[0] == "post"@)
}

/// The parameter that an input declares; a receiver declares none.
pub open spec fn typed_input() -> spec_fn(FunctionInputView) -> Option<ParameterView> {
    |input: FunctionInputView|
        match input {
            FunctionInputView::Typed(parameter) => Some(parameter),
            FunctionInputView::Receiver => None,
        }
}

/// The declared parameters among `inputs`, in their order.
pub open spec fn declared_params(inputs: Seq<FunctionInputView>) -> Seq<ParameterView> {
    inputs.filter_map(typed_input())
}

/// The handler that a route marker `attr` of `item` makes of it: it has
/// the item's name, its declared parameters and its return type, and the
/// route path of the marker.
pub open spec fn handler_of_marker(
    item: FunctionItemView,
    attr: AttributeView,
) -> RocketReqHandlerView {
    RocketReqHandlerView {
        name: item.name,
        path: route_path(attr.tokens),
        params: declared_params(item.inputs),
        return_type: item.output,
    }
}

/// The handler that an attribute of `item` makes of it; none where the
/// attribute marks no route.
pub open spec fn handler_for(item: FunctionItemView) -> spec_fn(AttributeView) -> Option<
    RocketReqHandlerView,
> {
    |attr: AttributeView|
        if is_route_marker(attr) {
            Some(handler_of_marker(item, attr))
        } else {
            None
        }
}

/// The handlers that `item` itself declares: one for each of its route
/// markers, in their order.
pub open spec fn own_handlers(item: FunctionItemView) -> Seq<RocketReqHandlerView> {
    item.attrs.filter_map(handler_for(item))
}

/// The handlers of `item` and of all that is nested in it, depth first:
/// its own before those of the items within it.
pub open spec fn handlers_of(item: FunctionItemView) -> Seq<RocketReqHandlerView>
    decreases item, 1nat,
{
    own_handlers(item) + handlers_in(item.items)
}

/// The handlers of `items`, one item after the other.
pub open spec fn handlers_in(items: Seq<FunctionItemView>) -> Seq<RocketReqHandlerView>
    decreases items, 0nat,
{
    if items.len() == 0 {
        Seq::empty()
    } else {
        handlers_in(items.drop_last()) + handlers_of(items.last())
    }
}

/// Extracts the path attribute value from an attribute.
///
/// This function takes an attribute like `#[get("/path")]` and extracts
/// the path value from it.
pub fn handle_get_attr(attr: &Attribute) -> (route: String)
    ensures
        route@ == route_path(attr@.tokens),
{
    let inside = trim_matches(attr.tokens.as_str(), CharClass::Parenthesis);
    let first = before_first(inside, ',');
    trim_matches(first, CharClass::QuoteOrWhitespace).to_owned()
}

/// Tells whether an attribute marks a route handler.
pub fn marks_route(attr: &Attribute) -> (marks: bool)
    ensures
        marks == is_route_marker(attr@),
{
    if attr.path.len() == 0 {
        return false;
    }
    let first = attr.path[0].as_str();
    same_text(first, "get") || same_text(first, "post")
}

/// Copies the declared parameters out of the inputs of a function.
pub fn typed_params(inputs: &Vec<FunctionInput>) -> (params: Vec<Parameter>)
    ensures
        params.deep_view() == declared_params(inputs.deep_view()),
{
    let ghost all = inputs.deep_view();
    let mut params: Vec<Parameter> = Vec::new();
    let mut i: usize = 0;
    while i < inputs.len()
        invariant
            all == inputs.deep_view(),
            i <= inputs@.len(),
            params.deep_view() == all.take(i as int).filter_map(typed_input()),
        decreases inputs@.len() - i,
    {
        proof {
            all.lemma_filter_map_take_succ(typed_input(), i as int);
        }
        match &inputs[i] {
            FunctionInput::Typed(parameter) => {
                params.push(parameter.clone());
            },
            FunctionInput::Receiver => {},
        }
        i += 1;
    }
    assert(all.take(i as int) =~= all);
    params
}

impl Visitor {
    /// Records the handlers of a function item and of all that is nested
    /// in it, after those already found.
    pub fn visit_item_fn(&mut self, item_fn: &FunctionItem)
        ensures
            final(self).functions.deep_view() == old(self).functions.deep_view() + handlers_of(
                item_fn@,
            ),
        decreases item_fn,
    {
        let ghost found = self.functions.deep_view();
        let ghost item = item_fn@;
        let mut i: usize = 0;
        while i < item_fn.attrs.len()
            invariant
                item == item_fn@,
                i <= item_fn.attrs@.len(),
                self.functions.deep_view() == found + item.attrs.take(i as int).filter_map(
                    handler_for(item),
                ),
            decreases item_fn.attrs@.len() - i,
        {
            let ghost before = self.functions.deep_view();
            let attr = &item_fn.attrs[i];
            proof {
                item.attrs.lemma_filter_map_take_succ(handler_for(item), i as int);
            }
            if marks_route(attr) {
                let name = item_fn.name.clone();
                let path = handle_get_attr(attr);
                let params = typed_params(&item_fn.inputs);
                let return_type = match &item_fn.output {
                    Some(output) => Some(output.clone()),
                    None => None,
                };
                let req_handler = RocketReqHandler { name, path, params, return_type };
                self.functions.push(req_handler);
                assert(self.functions.deep_view() =~= before + seq![req_handler@]);
            }
            i += 1;
        }
        assert(item.attrs.take(i as int) =~= item.attrs);
        let ghost own = self.functions.deep_view();
        let mut j: usize = 0;
        while j < item_fn.items.len()
            invariant
                item == item_fn@,
                own == found + own_handlers(item),
                j <= item_fn.items@.len(),
                self.functions.deep_view() == own + handlers_in(item.items.take(j as int)),
            decreases item_fn.items@.len() - j,
        {
            proof {
                vstd::std_specs::vec::axiom_vec_index_decreases(item_fn.items, j as int);
                assert(item.items.take(j + 1).drop_last() =~= item.items.take(j as int));
            }
            self.visit_item_fn(&item_fn.items[j]);
            j += 1;
        }
        assert(item.items.take(j as int) =~= item.items);
    }

    /// Records the handlers of the function items of a file, one item
    /// after the other.
    pub fn visit_file(&mut self, items: &Vec<FunctionItem>)
        ensures
            final(self).functions.deep_view() == old(self).functions.deep_view() + handlers_in(
                items.deep_view(),
            ),
    {
        let ghost found = self.functions.deep_view();
        let ghost all = items.deep_view();
        let mut j: usize = 0;
        while j < items.len()
            invariant
                all == items.deep_view(),
                j <= items@.len(),
                self.functions.deep_view() == found + handlers_in(all.take(j as int)),
            decreases items@.len() - j,
        {
            proof {
                assert(all.take(j + 1).drop_last() =~= all.take(j as int));
            }
            self.visit_item_fn(&items[j]);
            j += 1;
        }
        assert(all.take(j as int) =~= all);
    }
}

/// Every handler that a function item declares is the one that one of
/// its route markers makes of it: it has the item's name, its declared
/// parameters and its return type.
pub proof fn lemma_own_handler_is_of_marker(item: FunctionItemView, k: int)
    requires
        0 <= k < own_handlers(item).len(),
    ensures
        exists|i: int|
            0 <= i < item.attrs.len() && is_route_marker(#[trigger] item.attrs[i])
                && own_handlers(item)[k] == handler_of_marker(item, item.attrs[i]),
        own_handlers(item)[k].name == item.name,
        own_handlers(item)[k].params == declared_params(item.inputs),
        own_handlers(item)[k].return_type == item.output,
{
    let f = handler_for(item);
    let found = own_handlers(item)[k];
    item.attrs.lemma_filter_map_contains(f, found);
    let attr = choose|attr: AttributeView|
        #[trigger] item.attrs.contains(attr) && f(attr) == Some(found);
    let i = choose|i: int| 0 <= i < item.attrs.len() && item.attrs[i] == attr;
    assert(is_route_marker(item.attrs[i]));
}

/// A function item with two route markers among its attributes declares
/// two handlers, one for each marker and in their order. The two have the
/// item's name, its declared parameters and its return type.
pub proof fn lemma_two_markers(item: FunctionItemView, i: int, j: int)
    requires
        0 <= i < j < item.attrs.len(),
        is_route_marker(item.attrs[i]),
        is_route_marker(item.attrs[j]),
        forall|k: int|
            0 <= k < item.attrs.len() && k != i && k != j ==> !is_route_marker(
                #[trigger] item.attrs[k],
            ),
    ensures
        own_handlers(item) == seq![
            handler_of_marker(item, item.attrs[i]),
            handler_of_marker(item, item.attrs[j]),
        ],
{
    let f = handler_for(item);
    let attrs = item.attrs;
    let before = attrs.take(i);
    let between = attrs.subrange(i + 1, j);
    let after = attrs.skip(j + 1);
    let first = seq![attrs[i]];
    let second = seq![attrs[j]];
    assert(attrs =~= before + first + between + second + after);
    lemma_filter_map_none(before, f);
    lemma_filter_map_none(between, f);
    lemma_filter_map_none(after, f);
    Seq::lemma_filter_map_singleton(attrs[i], f);
    Seq::lemma_filter_map_singleton(attrs[j], f);
    lemma_filter_map_concat(before, first, f);
    lemma_filter_map_concat(before + first, between, f);
    lemma_filter_map_concat(before + first + between, second, f);
    lemma_filter_map_concat(before + first + between + second, after, f);
}

} // verus!

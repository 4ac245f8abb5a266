//! The interface block that describes the handlers to a client.

use crate::parser::inner_box_type::{inner_box_type, inner_name};
use crate::parser::params_as_comma_separated::{lemma_exclusion_removes,
    params_as_comma_separated_str, params_text, without_excluded};
use crate::parser::visitor::{is_route_marker, lemma_own_handler_is_of_marker, lemma_two_markers,
    own_handlers, RocketReqHandler, RocketReqHandlerView};
use crate::syntax::{FunctionItemView, TypeExpression, TypeExpressionView};
use crate::text::{ends_with, has_suffix};
use vstd::prelude::*;

verus! {

/// The handlers found in one source unit.
#[derive(Debug, PartialEq, Eq)]
pub struct SourceUnit {
    /// What identifies the unit: the name of its file.
    pub name: String,
    /// Its handlers, in the order in which they were found.
    pub handlers: Vec<RocketReqHandler>,
}

/// What a `SourceUnit` stands for in contracts.
pub ghost struct SourceUnitView {
    pub name: Seq<char>,
    pub handlers: Seq<RocketReqHandlerView>,
}

impl View for SourceUnit {
    type V = SourceUnitView;

    open spec fn view(&self) -> SourceUnitView {
        SourceUnitView { name: self.name@, handlers: self.handlers.deep_view() }
    }
}

impl DeepView for SourceUnit {
    type V = SourceUnitView;

    open spec fn deep_view(&self) -> SourceUnitView {
        self@
    }
}

/// The name of a handler's return type towards a client: the inner name
/// of the declared type, and `any` where none is declared or the declared
/// one has no inner name.
pub open spec fn return_name(output: Option<TypeExpressionView>) -> Seq<char> {
    match output {
        Some(declared) => match inner_name(declared) {
            Some(name) => name,
            None => "any"@,
        },
        None => "any"@,
    }
}

/// The comment that names a handler's route: `// handler "<route>"`.
pub open spec fn handler_comment(handler: RocketReqHandlerView) -> Seq<char> {
    "// handler \""@ + handler.path + "\""@
}

/// The member that declares a handler: `<name>(<parameters>): <return>;`.
pub open spec fn member_line(handler: RocketReqHandlerView, excluded: Seq<Seq<char>>) -> Seq<char> {
    handler.name + "("@ + params_text(handler.params, excluded) + "): "@ + return_name(
        handler.return_type,
    ) + ";"@
}

/// The two lines of a handler, each behind a tab and ended by a line feed.
pub open spec fn handler_text(
    handler: RocketReqHandlerView,
    excluded: Seq<Seq<char>>,
) -> Seq<char> {
    "\t"@ + handler_comment(handler) + "\n"@ + "\t"@ + member_line(handler, excluded) + "\n"@
}

/// The lines of `handlers`, one handler after the other.
pub open spec fn handlers_text(
    handlers: Seq<RocketReqHandlerView>,
    excluded: Seq<Seq<char>>,
) -> Seq<char>
    decreases handlers.len(),
{
    if handlers.len() == 0 {
        Seq::empty()
    } else {
        handlers_text(handlers.drop_last(), excluded) + handler_text(handlers.last(), excluded)
    }
}

/// The section of a source unit: an empty line, a comment with the unit's
/// name, and the lines of its handlers.
pub open spec fn unit_text(unit: SourceUnitView, excluded: Seq<Seq<char>>) -> Seq<char> {
    "\n\t// "@ + unit.name + "\n"@ + handlers_text(unit.handlers, excluded)
}

/// The sections of `units`, one unit after the other.
pub open spec fn units_text(units: Seq<SourceUnitView>, excluded: Seq<Seq<char>>) -> Seq<char>
    decreases units.len(),
{
    if units.len() == 0 {
        Seq::empty()
    } else {
        units_text(units.drop_last(), excluded) + unit_text(units.last(), excluded)
    }
}

/// What opens the interface block: the banner and the head of the
/// interface.
pub open spec fn interface_head() -> Seq<char> {
    "/*\n * Generated by rocket-ts 0.1.0 🚀 🌎\n */\nexport interface k7 {"@
}

/// The whole interface block: its head, the sections of the units, and
/// the closing brace on a line of its own.
pub open spec fn interface_text(units: Seq<SourceUnitView>, excluded: Seq<Seq<char>>) -> Seq<char> {
    interface_head() + units_text(units, excluded) + "}\n"@
}

/// Whether a file of this name is read as a source unit: the name ends in
/// `.rs`.
pub open spec fn is_source_name(file_name: Seq<char>) -> bool {
    has_suffix(file_name, ".rs"@)
}

/// Tells whether a file of this name is read as a source unit.
pub fn is_source_file(file_name: &str) -> (is_source: bool)
    ensures
        is_source == is_source_name(file_name@),
{
    ends_with(file_name, ".rs")
}

/// Provide the inner return type of a request handler that TypeScript callers will care about.
///
/// i.e. Result<Json<Message>> -> "Message"
pub fn inner_return_type(node: &Option<TypeExpression>) -> (name: String)
    ensures
        name@ == return_name(node.deep_view()),
{
    if let Some(declared) = node {
        if let Some(inner) = inner_box_type(declared) {
            return inner;
        }
    }
    "any".to_owned()
}

/// Writes the two lines of a handler.
pub fn render_handler(handler: RocketReqHandler, exclusion_list: &[String]) -> (text: String)
    ensures
        text@ == handler_text(handler@, exclusion_list.deep_view()),
{
    let RocketReqHandler { name, path, params, return_type } = handler;
    let listed = params_as_comma_separated_str(params, exclusion_list);
    let returned = inner_return_type(&return_type);
    let mut text = "\t// handler \"".to_owned();
    text.append(path.as_str());
    text.append("\"\n\t");
    text.append(name.as_str());
    text.append("(");
    text.append(listed.as_str());
    text.append("): ");
    text.append(returned.as_str());
    text.append(";\n");
    proof {
        reveal_strlit("\t// handler \"");
        reveal_strlit("\"\n\t");
        reveal_strlit(";\n");
        reveal_strlit("\t");
        reveal_strlit("// handler \"");
        reveal_strlit("\"");
        reveal_strlit("\n");
        reveal_strlit(";");
    }
    text
}

/// Writes the section of a source unit.
pub fn render_unit(unit: SourceUnit, exclusion_list: &[String]) -> (text: String)
    ensures
        text@ == unit_text(unit@, exclusion_list.deep_view()),
{
    let ghost excluded = exclusion_list.deep_view();
    let ghost all = unit.handlers.deep_view();
    let SourceUnit { name, handlers } = unit;
    let mut text = "\n\t// ".to_owned();
    text.append(name.as_str());
    text.append("\n");
    let ghost head = text@;
    for handler in it: handlers
        invariant
            excluded == exclusion_list.deep_view(),
            all == handlers.deep_view(),
            it.seq() == handlers@,
            text@ == head + handlers_text(all.take(it.index() as int), excluded),
    {
        proof {
            assert(all.take(it.index() + 1).drop_last() =~= all.take(it.index() as int));
        }
        let lines = render_handler(handler, exclusion_list);
        text.append(lines.as_str());
    }
    assert(all.take(all.len() as int) =~= all);
    text
}

/// Writes the whole interface block for the handlers of `units`.
pub fn render_interface(units: Vec<SourceUnit>, exclusion_list: &[String]) -> (text: String)
    ensures
        text@ == interface_text(units.deep_view(), exclusion_list.deep_view()),
{
    let ghost excluded = exclusion_list.deep_view();
    let ghost all = units.deep_view();
    let head = "/*\n * Generated by rocket-ts 0.1.0 🚀 🌎\n */\nexport interface k7 {";
    let mut text = head.to_owned();
    for unit in it: units
        invariant
            excluded == exclusion_list.deep_view(),
            all == units.deep_view(),
            it.seq() == units@,
            text@ == interface_head() + units_text(all.take(it.index() as int), excluded),
    {
        proof {
            assert(all.take(it.index() + 1).drop_last() =~= all.take(it.index() as int));
        }
        let section = render_unit(unit, exclusion_list);
        text.append(section.as_str());
    }
    assert(all.take(all.len() as int) =~= all);
    text.append("}\n");
    text
}

/// `handler` without the parameters whose type is excluded.
pub open spec fn handler_without_excluded(
    handler: RocketReqHandlerView,
    excluded: Seq<Seq<char>>,
) -> RocketReqHandlerView {
    RocketReqHandlerView {
        name: handler.name,
        path: handler.path,
        params: without_excluded(handler.params, excluded),
        return_type: handler.return_type,
    }
}

/// `handlers`, each without the parameters whose type is excluded.
pub open spec fn handlers_without_excluded(
    handlers: Seq<RocketReqHandlerView>,
    excluded: Seq<Seq<char>>,
) -> Seq<RocketReqHandlerView> {
    Seq::new(handlers.len(), |i: int| handler_without_excluded(handlers[i], excluded))
}

/// `units`, each handler of each unit without the parameters whose type
/// is excluded.
pub open spec fn units_without_excluded(
    units: Seq<SourceUnitView>,
    excluded: Seq<Seq<char>>,
) -> Seq<SourceUnitView> {
    Seq::new(
        units.len(),
        |i: int|
            SourceUnitView {
                name: units[i].name,
                handlers: handlers_without_excluded(units[i].handlers, excluded),
            },
    )
}

/// The lines of handlers read as if no parameter of an excluded type had
/// been declared.
pub proof fn lemma_exclusion_in_handlers(
    handlers: Seq<RocketReqHandlerView>,
    excluded: Seq<Seq<char>>,
)
    ensures
        handlers_text(handlers, excluded) == handlers_text(
            handlers_without_excluded(handlers, excluded),
            excluded,
        ),
    decreases handlers.len(),
{
    if handlers.len() > 0 {
        let stripped = handlers_without_excluded(handlers, excluded);
        lemma_exclusion_in_handlers(handlers.drop_last(), excluded);
        lemma_exclusion_removes(handlers.last().params, excluded);
        assert(stripped.drop_last() =~= handlers_without_excluded(handlers.drop_last(), excluded));
    }
}

/// The sections of source units read as if no parameter of an excluded
/// type had been declared.
pub proof fn lemma_exclusion_in_units(units: Seq<SourceUnitView>, excluded: Seq<Seq<char>>)
    ensures
        units_text(units, excluded) == units_text(
            units_without_excluded(units, excluded),
            excluded,
        ),
    decreases units.len(),
{
    if units.len() > 0 {
        let stripped = units_without_excluded(units, excluded);
        lemma_exclusion_in_units(units.drop_last(), excluded);
        lemma_exclusion_in_handlers(units.last().handlers, excluded);
        assert(stripped.drop_last() =~= units_without_excluded(units.drop_last(), excluded));
    }
}

/// Excluding a type name removes every parameter of that type from the
/// parameter list of every handler of every source unit: the interface
/// block reads as if no such parameter had been declared.
pub proof fn lemma_exclusion_in_interface(units: Seq<SourceUnitView>, excluded: Seq<Seq<char>>)
    ensures
        interface_text(units, excluded) == interface_text(
            units_without_excluded(units, excluded),
            excluded,
        ),
{
    lemma_exclusion_in_units(units, excluded);
}

/// All the members that one function item gives have the same name, the
/// same parameters and the same return type: their lines are equal.
pub proof fn lemma_members_of_item_agree(
    item: FunctionItemView,
    a: int,
    b: int,
    excluded: Seq<Seq<char>>,
)
    requires
        0 <= a < own_handlers(item).len(),
        0 <= b < own_handlers(item).len(),
    ensures
        own_handlers(item)[a].name == own_handlers(item)[b].name,
        own_handlers(item)[a].params == own_handlers(item)[b].params,
        own_handlers(item)[a].return_type == own_handlers(item)[b].return_type,
        member_line(own_handlers(item)[a], excluded) == member_line(
            own_handlers(item)[b],
            excluded,
        ),
{
    lemma_own_handler_is_of_marker(item, a);
    lemma_own_handler_is_of_marker(item, b);
}

/// A function item with two route markers gives two members with the
/// same name, the same parameters and the same return type: two equal
/// member lines.
pub proof fn lemma_two_markers_two_members(
    item: FunctionItemView,
    i: int,
    j: int,
    excluded: Seq<Seq<char>>,
)
    requires
        0 <= i < j < item.attrs.len(),
        is_route_marker(item.attrs[i]),
        is_route_marker(item.attrs[j]),
        forall|k: int|
            0 <= k < item.attrs.len() && k != i && k != j ==> !is_route_marker(
                #[trigger] item.attrs[k],
            ),
    ensures
        own_handlers(item).len() == 2,
        own_handlers(item)[0].name == own_handlers(item)[1].name,
        own_handlers(item)[0].params == own_handlers(item)[1].params,
        own_handlers(item)[0].return_type == own_handlers(item)[1].return_type,
        member_line(own_handlers(item)[0], excluded) == member_line(
            own_handlers(item)[1],
            excluded,
        ),
{
    lemma_two_markers(item, i, j);
}

} // verus!

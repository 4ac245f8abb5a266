use rocket_ts::parser::exclusion_parser::{parse_exclusion_file, should_exclude_type};
use rocket_ts::parser::params_as_comma_separated::{
    client_type, params_as_comma_separated_str, resolve_param, ParamResolution,
};
use rocket_ts::syntax::{Parameter, TypeArgument, TypeExpression};

fn leaf(name: &str) -> TypeExpression {
    TypeExpression::Leaf { name: name.to_string() }
}

fn generic(name: &str, args: Vec<(&str, TypeExpression)>) -> TypeExpression {
    TypeExpression::Generic {
        name: name.to_string(),
        args: args
            .into_iter()
            .map(|(source, expr)| TypeArgument { source: source.to_string(), expr })
            .collect(),
    }
}

fn reference(referent: TypeExpression) -> TypeExpression {
    TypeExpression::Reference { referent: Box::new(referent) }
}

fn named(name: &str, ty: TypeExpression) -> Parameter {
    Parameter { name: Some(name.to_string()), ty }
}

fn pattern(ty: TypeExpression) -> Parameter {
    Parameter { name: None, ty }
}

fn names(list: &[&str]) -> Vec<String> {
    list.iter().map(|name| name.to_string()).collect()
}

fn entry(name: &str, ty: &str) -> ParamResolution {
    ParamResolution::Entry { name: name.to_string(), ty: ty.to_string() }
}

#[test]
fn numeric_primitives_become_number() {
    for name in ["i32", "i64", "u32", "u64", "f32", "f64", "usize"] {
        assert_eq!(client_type(name), "number");
        assert_eq!(resolve_param(&named("n", leaf(name)), &[]), entry("n", "number"));
    }
}

#[test]
fn no_other_name_becomes_number() {
    for name in [
        "i8", "i16", "i128", "isize", "u8", "u16", "u128", "f16", "I32", "i32 ", "int", "Number",
        "bool", "String", "char", "", "usiz", "usizes",
    ] {
        assert_eq!(client_type(name), name);
        assert_eq!(resolve_param(&named("n", leaf(name)), &[]), entry("n", name));
    }
    assert_eq!(client_type("number"), "number");
}

#[test]
fn plain_leaf_type_passes_unchanged() {
    let excluded = names(&["Guard"]);
    assert_eq!(resolve_param(&named("item", leaf("Item")), &excluded), entry("item", "Item"));
    assert_eq!(resolve_param(&named("r", leaf("Result")), &excluded), entry("r", "Result"));
    assert_eq!(resolve_param(&named("j", leaf("Json")), &excluded), entry("j", "Json"));
    assert_eq!(resolve_param(&named("s", leaf("str")), &excluded), entry("s", "str"));
    assert_eq!(params_as_comma_separated_str(vec![named("item", leaf("Item"))], &excluded), "item:Item");
}

#[test]
fn excluded_type_is_dropped() {
    let excluded = names(&["Guard"]);
    assert_eq!(resolve_param(&named("_g", leaf("Guard")), &excluded), ParamResolution::Dropped);
    let params = vec![named("_g", leaf("Guard")), named("id", leaf("u64"))];
    assert_eq!(params_as_comma_separated_str(params, &excluded), "id:number");
}

#[test]
fn excluded_type_is_dropped_wherever_it_stands() {
    let excluded = names(&["Db", "Guard"]);
    let params = vec![
        named("a", leaf("Guard")),
        named("id", leaf("u64")),
        named("b", leaf("Guard")),
        named("db", leaf("Db")),
        named("name", leaf("String")),
        named("c", leaf("Guard")),
    ];
    assert_eq!(params_as_comma_separated_str(params, &excluded), "id:number,name:String");
    let only = vec![named("a", leaf("Guard")), named("b", leaf("Guard"))];
    assert_eq!(params_as_comma_separated_str(only, &excluded), "");
}

#[test]
fn type_that_is_not_excluded_is_listed() {
    let params = vec![named("_g", leaf("Guard")), named("id", leaf("u64"))];
    assert_eq!(params_as_comma_separated_str(params, &[]), "_g:Guard,id:number");
    let other = names(&["guard", "Guards"]);
    let params = vec![named("_g", leaf("Guard")), named("id", leaf("u64"))];
    assert_eq!(params_as_comma_separated_str(params, &other), "_g:Guard,id:number");
}

#[test]
fn exclusion_comes_before_the_numeric_table() {
    let excluded = names(&["u64"]);
    assert_eq!(resolve_param(&named("id", leaf("u64")), &excluded), ParamResolution::Dropped);
    let mapped = names(&["number"]);
    assert_eq!(resolve_param(&named("id", leaf("u64")), &mapped), entry("id", "number"));
}

#[test]
fn excluded_generic_type_is_dropped() {
    let excluded = names(&["State"]);
    let state = generic("State", vec![("Db", leaf("Db"))]);
    assert_eq!(resolve_param(&named("db", state), &excluded), ParamResolution::Dropped);
}

#[test]
fn excluding_a_wrapper_name_does_not_stop_unwrapping() {
    let excluded = names(&["Json"]);
    let body = generic("Json", vec![("NewItem", leaf("NewItem"))]);
    assert_eq!(
        resolve_param(&named("body", body), &excluded),
        ParamResolution::Whole { ty: "NewItem".to_string() }
    );
}

#[test]
fn parameter_bound_by_a_pattern_is_dropped() {
    assert_eq!(resolve_param(&pattern(leaf("Item")), &[]), ParamResolution::Dropped);
    let body = generic("Json", vec![("NewItem", leaf("NewItem"))]);
    assert_eq!(resolve_param(&pattern(body), &[]), ParamResolution::Dropped);
    let params = vec![pattern(leaf("Pair")), named("id", leaf("u32"))];
    assert_eq!(params_as_comma_separated_str(params, &[]), "id:number");
}

#[test]
fn reference_to_generic_takes_the_source_of_the_first_argument() {
    let state = reference(generic("State", vec![("Db", leaf("Db"))]));
    assert_eq!(resolve_param(&named("db", state), &[]), entry("db", "Db"));
    let nested = reference(generic(
        "State",
        vec![("Vec < Foo >", generic("Vec", vec![("Foo", leaf("Foo"))])), ("u64", leaf("u64"))],
    ));
    assert_eq!(resolve_param(&named("all", nested), &[]), entry("all", "Vec < Foo >"));
}

#[test]
fn reference_takes_the_source_text_as_it_is() {
    let excluded = names(&["u64", "Guard"]);
    let number = reference(generic("State", vec![("u64", leaf("u64"))]));
    assert_eq!(resolve_param(&named("n", number), &excluded), entry("n", "u64"));
    let guard = reference(generic("State", vec![("Guard", leaf("Guard"))]));
    assert_eq!(resolve_param(&named("g", guard), &excluded), entry("g", "Guard"));
    let lifetime = reference(generic("Request", vec![("'r", TypeExpression::Other)]));
    assert_eq!(resolve_param(&named("req", lifetime), &excluded), entry("req", "'r"));
    let wrapper = reference(generic("Json", vec![("Foo", leaf("Foo"))]));
    assert_eq!(resolve_param(&named("body", wrapper), &excluded), entry("body", "Foo"));
}

#[test]
fn reference_to_str_is_string() {
    assert_eq!(resolve_param(&named("s", reference(leaf("str"))), &[]), entry("s", "string"));
    let excluded = names(&["str"]);
    assert_eq!(
        resolve_param(&named("s", reference(leaf("str"))), &excluded),
        entry("s", "string")
    );
}

#[test]
fn any_other_reference_is_dropped() {
    for referent in [
        leaf("Foo"),
        leaf("String"),
        leaf("u64"),
        generic("State", vec![]),
        generic("str", vec![]),
        reference(leaf("str")),
        TypeExpression::Other,
    ] {
        assert_eq!(resolve_param(&named("x", reference(referent)), &[]), ParamResolution::Dropped);
    }
}

#[test]
fn type_of_another_shape_is_dropped() {
    assert_eq!(resolve_param(&named("pair", TypeExpression::Other), &[]), ParamResolution::Dropped);
    let params = vec![named("pair", TypeExpression::Other), named("id", leaf("i64"))];
    assert_eq!(params_as_comma_separated_str(params, &[]), "id:number");
}

#[test]
fn generic_that_is_no_wrapper_is_listed_under_its_own_name() {
    let list = generic("Vec", vec![("Foo", leaf("Foo"))]);
    assert_eq!(resolve_param(&named("all", list), &[]), entry("all", "Vec"));
    let fallible = generic("Result", vec![("Foo", leaf("Foo"))]);
    assert_eq!(resolve_param(&named("r", fallible), &[]), entry("r", "Result"));
    let option = generic("Option", vec![("u64", leaf("u64"))]);
    assert_eq!(resolve_param(&named("n", option), &[]), entry("n", "Option"));
    assert_eq!(resolve_param(&named("n", generic("usize", vec![])), &[]), entry("n", "number"));
}

#[test]
fn wrapped_parameter_stands_for_the_whole_list() {
    let body = || generic("Json", vec![("NewItem", leaf("NewItem"))]);
    assert_eq!(
        resolve_param(&named("body", body()), &[]),
        ParamResolution::Whole { ty: "NewItem".to_string() }
    );
    assert_eq!(params_as_comma_separated_str(vec![named("body", body())], &[]), "NewItem");
    let params = vec![named("id", leaf("u64")), named("body", body()), named("tag", leaf("Tag"))];
    assert_eq!(params_as_comma_separated_str(params, &[]), "NewItem");
}

#[test]
fn first_wrapped_parameter_wins() {
    let params = vec![
        named("a", leaf("A")),
        named("first", generic("Json", vec![("One", leaf("One"))])),
        named("second", generic("Json", vec![("Two", leaf("Two"))])),
    ];
    assert_eq!(params_as_comma_separated_str(params, &[]), "One");
    let params = vec![
        pattern(generic("Json", vec![("One", leaf("One"))])),
        named("second", generic("Result", vec![])),
        named("third", generic("Json", vec![("Three", leaf("Three"))])),
    ];
    assert_eq!(params_as_comma_separated_str(params, &[]), "void");
}

#[test]
fn wrapped_parameter_unwraps_as_a_return_type_does() {
    let fallible = generic(
        "Result",
        vec![("Json < Foo >", generic("Json", vec![("Foo", leaf("Foo"))]))],
    );
    assert_eq!(
        resolve_param(&named("r", fallible), &[]),
        ParamResolution::Whole { ty: "Foo".to_string() }
    );
    let list = generic("Json", vec![("Vec < Foo >", generic("Vec", vec![("Foo", leaf("Foo"))]))]);
    assert_eq!(
        resolve_param(&named("all", list), &[]),
        ParamResolution::Whole { ty: "Foo".to_string() }
    );
    assert_eq!(
        resolve_param(&named("j", generic("Json", vec![])), &[]),
        ParamResolution::Whole { ty: "void".to_string() }
    );
}

#[test]
fn entries_keep_their_order_and_are_joined_by_commas() {
    let params = vec![
        named("c", leaf("C")),
        named("a", leaf("f32")),
        named("b", reference(leaf("str"))),
        named("a", leaf("A")),
    ];
    assert_eq!(params_as_comma_separated_str(params, &[]), "c:C,a:number,b:string,a:A");
    assert_eq!(params_as_comma_separated_str(vec![], &[]), "");
}

#[test]
fn membership_in_the_exclusion_list() {
    let excluded = names(&["Guard", "Db"]);
    assert!(should_exclude_type("Guard".to_string(), &excluded));
    assert!(should_exclude_type("Db".to_string(), &excluded));
    assert!(!should_exclude_type("guard".to_string(), &excluded));
    assert!(!should_exclude_type("Guar".to_string(), &excluded));
    assert!(!should_exclude_type("".to_string(), &excluded));
    assert!(!should_exclude_type("Guard".to_string(), &[]));
}

#[test]
fn exclusion_list_has_one_name_per_line() {
    assert_eq!(parse_exclusion_file("Guard\nDb\nState"), names(&["Guard", "Db", "State"]));
    assert_eq!(parse_exclusion_file("Guard\nDb\n"), names(&["Guard", "Db"]));
    assert_eq!(parse_exclusion_file("Guard"), names(&["Guard"]));
}

#[test]
fn exclusion_list_trims_each_line() {
    assert_eq!(
        parse_exclusion_file("  Guard  \n\tDb\t\r\n\u{a0}State\u{3000}\n"),
        names(&["Guard", "Db", "State"])
    );
    assert_eq!(parse_exclusion_file("My Guard"), names(&["My Guard"]));
}

#[test]
fn exclusion_list_skips_comments_and_blank_lines() {
    let contents = "# request guards\nGuard\n\n   \n  # indented comment\nDb # kept\n#\n";
    assert_eq!(parse_exclusion_file(contents), names(&["Guard", "Db # kept"]));
    assert_eq!(parse_exclusion_file(""), names(&[]));
    assert_eq!(parse_exclusion_file("\n\n\n"), names(&[]));
    assert_eq!(parse_exclusion_file("# only a comment"), names(&[]));
}

#[test]
fn exclusion_list_keeps_repeated_names() {
    assert_eq!(parse_exclusion_file("Guard\nGuard\n"), names(&["Guard", "Guard"]));
}

#[test]
fn parsed_exclusion_list_drops_parameters() {
    let excluded = parse_exclusion_file("# guards\n Guard \n");
    let params = vec![named("_g", leaf("Guard")), named("id", leaf("u64"))];
    assert_eq!(params_as_comma_separated_str(params, &excluded), "id:number");
}

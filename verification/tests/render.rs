use minijinjasql::CtxValue;
use minijinjasql::IDQuoteChar;
use minijinjasql::JinjaSqlBuilder;
use minijinjasql::ParamStyle;
use minijinjasql::RenderError;

fn s(text: &str) -> String {
    text.to_string()
}

fn scalar(text: &str) -> CtxValue {
    CtxValue::Scalar(s(text))
}

fn sequence(items: &[&str]) -> CtxValue {
    CtxValue::Sequence(items.iter().map(|t| scalar(t)).collect())
}

#[test]
fn test_basic_render_source() {
    let source = vec![(
        s("basic.sql.j2"),
        s("select * from {{ table_name | upper }}\nwhere x in {{ other_items | inclause }}"),
    )];

    let mut j = JinjaSqlBuilder::new().set_param_style("qmark").set_source(source).build();
    let context = CtxValue::Mapping(vec![
        (s("table_name"), scalar("mytable")),
        (s("items"), sequence(&["a", "b", "c"])),
        (s("other_items"), sequence(&["d", "e", "f"])),
    ]);
    let (res, params) = j.render_query(None, Some("basic.sql.j2"), &context).unwrap();

    println!("{}", res);
    println!("{:?}", params);
    assert_eq!(res, "select * from MYTABLE\nwhere x in (?, ?, ?)");
    assert_eq!(params, vec!["d", "e", "f"]);
}

#[test]
fn test_basic_render() {
    let mut j = JinjaSqlBuilder::new().build();

    let query_string =
        "select * from {{ table_name | upper }}\nwhere x in {{ other_items | reverse | inclause }}\n";

    let context = CtxValue::Mapping(vec![
        (s("table_name"), scalar("mytable")),
        (s("items"), sequence(&["a", "b", "c"])),
        (s("other_items"), sequence(&["d", "e", "f"])),
    ]);
    let (res, params) = j.render_query(Some(query_string), None, &context).unwrap();

    println!("{}", res);
    println!("{:?}", params);
}

// test combining the inclause and naked bind
#[test]
fn test_complex_render() {
    let mut j = JinjaSqlBuilder::new().build();
    let query_string = "select{% for col in columns %}\n    {{ col }}{%- if not loop.last %},{% endif %}{% endfor %}\nfrom\n    (\n    select {% for col in columns %}\n    {{ col }}{%- if not loop.last %},{% endif %}{% endfor %} from {{ table_name | upper }}\n    where sku in {{ skus | inclause }}\n)a\nwhere \n    tag in {{ tags | reverse | inclause }}\n    and stock_date = {{ baz | bind }}\n";

    let context = CtxValue::Mapping(vec![
        (s("columns"), sequence(&["apple", "lettuce", "lemon"])),
        (s("table_name"), scalar("orders.stock_data")),
        (s("tags"), sequence(&["moldy", "sweet", "fresh"])),
        (s("skus"), sequence(&["EE-001", "EA-001", "BA-001"])),
        (s("baz"), scalar("2022-01-01")),
    ]);
    let (res, params) = j.render_query(Some(query_string), None, &context).unwrap();

    println!("{}", res);
    println!("{:?}", params);

    assert_eq!(
        res,
        "select\n    apple,\n    lettuce,\n    lemon\nfrom\n    (\n    select \n    apple,\n    lettuce,\n    lemon from ORDERS.STOCK_DATA\n    where sku in ($1, $2, $3)\n)a\nwhere \n    tag in ($4, $5, $6)\n    and stock_date = $7"
    );

    assert_eq!(
        params,
        vec!["EE-001", "EA-001", "BA-001", "fresh", "sweet", "moldy", "2022-01-01"]
    );
}

#[test]
fn end_to_end_scenario() {
    let mut j = JinjaSqlBuilder::new().build();
    let query =
        "select {{c}} from {{t|upper}} where sku in {{s|inclause}} and d = {{x|bind}}";
    let context = CtxValue::Mapping(vec![
        (s("c"), scalar("id")),
        (s("t"), scalar("orders")),
        (s("s"), sequence(&["A", "B"])),
        (s("x"), scalar("2022-01-01")),
    ]);
    let (res, params) = j.render_query(Some(query), None, &context).unwrap();
    assert_eq!(res, "select id from ORDERS where sku in ($1, $2) and d = $3");
    assert_eq!(params, vec!["A", "B", "2022-01-01"]);
}

#[test]
fn rerender_reuses_compiled_template() {
    let mut j = JinjaSqlBuilder::new().build();
    let query = "where d = {{x|bind}}";
    let context = CtxValue::Mapping(vec![(s("x"), scalar("v"))]);

    let (res1, params1) = j.render_query(Some(query), None, &context).unwrap();
    assert_eq!(j.registered.len(), 1);
    let (res2, params2) = j.render_query(Some(query), None, &context).unwrap();

    assert_eq!(res1, res2);
    assert_eq!(params1, params2);
    assert_eq!(res1, "where d = $1");
    // the content-derived name was registered once, not twice
    assert_eq!(j.registered.len(), 1);
}

#[test]
fn independent_environments_do_not_interleave() {
    let mut e1 = JinjaSqlBuilder::new().build();
    let mut e2 = JinjaSqlBuilder::new().set_param_style("qmark").build();

    let c1 = CtxValue::Mapping(vec![(s("a"), scalar("one"))]);
    let c2 = CtxValue::Mapping(vec![(s("a"), scalar("two"))]);

    // building e2 after e1, with another style, must not disturb e1
    let (r1, p1) = e1.render_query(Some("X from {{a|bind}}"), None, &c1).unwrap();
    let (r2, p2) = e2.render_query(Some("Y from {{a|bind}}"), None, &c2).unwrap();

    assert_eq!(r1, "X from $1");
    assert_eq!(p1, vec!["one"]);
    assert_eq!(r2, "Y from ?");
    assert_eq!(p2, vec!["two"]);

    // and a second round on each still starts its numbering afresh
    let (r1b, p1b) = e1.render_query(Some("X from {{a|bind}}"), None, &c1).unwrap();
    assert_eq!(r1b, "X from $1");
    assert_eq!(p1b, vec!["one"]);
}

#[test]
fn quote_character_accepts_known_names_and_falls_back() {
    let b = JinjaSqlBuilder::new().set_identifier_quote_character("`");
    assert!(matches!(b.identifier_quote_character, IDQuoteChar::Backtick));
    let b = JinjaSqlBuilder::new().set_identifier_quote_character("\"");
    assert!(matches!(b.identifier_quote_character, IDQuoteChar::DoubleQuote));
    let b = JinjaSqlBuilder::new().set_identifier_quote_character("~");
    assert!(matches!(b.identifier_quote_character, IDQuoteChar::DoubleQuote));
}

#[test]
fn unknown_param_style_falls_back_to_numeric() {
    let b = JinjaSqlBuilder::new().set_param_style("pyformat");
    assert!(matches!(b.param_style, ParamStyle::Numeric));

    let mut j = b.build();
    let context = CtxValue::Mapping(vec![(s("x"), scalar("v"))]);
    let (res, params) = j.render_query(Some("d = {{x|bind}}"), None, &context).unwrap();
    assert_eq!(res, "d = $1");
    assert_eq!(params, vec!["v"]);
}

#[test]
fn neither_source_is_an_error() {
    let mut j = JinjaSqlBuilder::new().build();
    let context = CtxValue::Mapping(vec![]);
    let err = j.render_query(None, None, &context).unwrap_err();
    assert!(matches!(err, RenderError::NoTemplateSource));
}

#[test]
fn both_sources_is_an_error() {
    let mut j = JinjaSqlBuilder::new().build();
    let context = CtxValue::Mapping(vec![]);
    let err = j.render_query(Some("select 1"), Some("a.sql"), &context).unwrap_err();
    assert!(matches!(err, RenderError::ConflictingTemplateSource));
}

#[test]
fn missing_template_name_is_an_error() {
    let mut j = JinjaSqlBuilder::new().build();
    let context = CtxValue::Mapping(vec![]);
    let err = j.render_query(None, Some("absent.sql"), &context).unwrap_err();
    assert!(matches!(err, RenderError::TemplateNotFound));
}

#[test]
fn template_syntax_error_is_a_resolution_error() {
    let mut j = JinjaSqlBuilder::new().build();
    let context = CtxValue::Mapping(vec![]);
    let err = j.render_query(Some("select {{ unclosed"), None, &context).unwrap_err();
    assert!(matches!(err, RenderError::Resolution(_)));
}

#[test]
fn wrong_shape_for_in_clause_is_an_evaluation_error() {
    let mut j = JinjaSqlBuilder::new().build();
    let context = CtxValue::Mapping(vec![(s("v"), scalar("not-a-sequence"))]);
    let err = j.render_query(Some("in {{v|inclause}}"), None, &context).unwrap_err();
    assert!(matches!(err, RenderError::Evaluation(_)));
}

#[test]
fn failed_render_does_not_leak_values_into_the_next() {
    let mut j = JinjaSqlBuilder::new().build();
    // the first bind succeeds before the in-clause fails on a scalar
    let bad_context = CtxValue::Mapping(vec![
        (s("x"), scalar("leftover")),
        (s("v"), scalar("not-a-sequence")),
    ]);
    let err = j
        .render_query(Some("d = {{x|bind}} in {{v|inclause}}"), None, &bad_context)
        .unwrap_err();
    assert!(matches!(err, RenderError::Evaluation(_)));

    let context = CtxValue::Mapping(vec![(s("x"), scalar("fresh"))]);
    let (res, params) = j.render_query(Some("d = {{x|bind}}"), None, &context).unwrap();
    assert_eq!(res, "d = $1");
    assert_eq!(params, vec!["fresh"]);
}

#[test]
fn named_template_renders_from_repository() {
    let source = vec![
        (s("a.sql"), s("select * from t where k = {{k|bind}}")),
        (s("b.sql"), s("select 1")),
    ];
    let mut j = JinjaSqlBuilder::new().set_source(source).build();
    let context = CtxValue::Mapping(vec![(s("k"), scalar("key"))]);
    let (res, params) = j.render_query(None, Some("a.sql"), &context).unwrap();
    assert_eq!(res, "select * from t where k = $1");
    assert_eq!(params, vec!["key"]);
}

#[test]
fn prepare_query_marshals_a_data_mapping() {
    let data = vec![(s("skus"), vec![s("EE-001"), s("EA-001")])];
    let (res, params) = minijinjasql::prepare_query(
        "select * from t where sku in {{skus|inclause}}",
        data,
        None,
    )
    .unwrap();
    assert_eq!(res, "select * from t where sku in ($1, $2)");
    assert_eq!(params, vec!["EE-001", "EA-001"]);
}

#[test]
fn prepare_query_accepts_a_style_name() {
    let data = vec![(s("skus"), vec![s("a"), s("b")])];
    let (res, params) = minijinjasql::prepare_query(
        "in {{skus|inclause}}",
        data,
        Some("qmark"),
    )
    .unwrap();
    assert_eq!(res, "in (?, ?)");
    assert_eq!(params, vec!["a", "b"]);
}

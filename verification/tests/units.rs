use guarded_templates::authorize::{is_authorized, schema_declares, validate_template_variables};
use guarded_templates::codec::{
    decode_batch, decode_definition, decode_registration, write_to_memory, TEMPLATE_KEY,
};
use guarded_templates::compile::{classify_compile_failure, judge_definition, TemplateDefinition};
use guarded_templates::interchange::parse_json;
use guarded_templates::json::Json;
use guarded_templates::operations::{
    compile_request, register_reply, register_request, render_request,
};
use guarded_templates::outcome::{
    CompileError, CompileErrorType, CompileResult, RegisterResult, RenderError, RenderErrorType,
    RenderResult,
};
use guarded_templates::schema::{validate_schema, SchemaRegistry};
use guarded_templates::store::{report_rendering, TemplateStore};
use guarded_templates::text::{
    chars_of, contains_text, is_space, joined, same_text, split_text, text_precedes, trimmed,
};
use guarded_templates::{compile_templates, register_component, render_template};

fn json(text: &str) -> Json {
    parse_json(text.as_bytes()).unwrap()
}

fn names(list: &[&str]) -> Vec<String> {
    list.iter().map(|s| s.to_string()).collect()
}

fn definition(name: &str, source: &str, components: &[&str]) -> TemplateDefinition {
    TemplateDefinition {
        name: name.to_string(),
        source: source.to_string(),
        components: names(components),
    }
}

fn registry_with(entries: &[(&str, &str)]) -> SchemaRegistry {
    let mut registry = SchemaRegistry::new();
    for (name, schema) in entries {
        registry.register(name.to_string(), json(schema)).unwrap();
    }
    registry
}

const PERSON: &str = r#"{"type":"object","properties":{"name":{"type":"string"},"address":{"type":"object","properties":{"city":{"type":"string"}}}}}"#;

// ---- text ----

#[test]
fn whitespace_is_the_unicode_property() {
    let mut code: u32 = 0;
    while code <= 0x10FFFF {
        if let Some(c) = char::from_u32(code) {
            assert_eq!(is_space(c), c.is_whitespace(), "U+{:04X}", code);
        }
        code += 1;
    }
}

#[test]
fn split_agrees_with_the_standard_split() {
    let cases = [
        ("", "."),
        ("a", "."),
        ("a.b.c", "."),
        (".a.", "."),
        ("..", "."),
        ("user.name", "."),
        ("template not found: child", "not found"),
        ("not found", "not found"),
        ("not foundnot found", "not found"),
        ("x not found y not found z", "not found"),
        ("aaa", "aa"),
        ("aaaa", "aa"),
        ("héllo.wörld", "."),
        ("abc", "abcd"),
    ];
    for (text, pattern) in cases {
        let expected: Vec<String> = text.split(pattern).map(|s| s.to_string()).collect();
        assert_eq!(split_text(text, pattern), expected, "{:?} by {:?}", text, pattern);
        assert_eq!(contains_text(text, pattern), text.contains(pattern));
    }
}

#[test]
fn split_gives_exact_pieces() {
    assert_eq!(split_text("a.b", "."), vec!["a".to_string(), "b".to_string()]);
    assert_eq!(split_text("a.", "."), vec!["a".to_string(), "".to_string()]);
    assert_eq!(split_text("", "."), vec!["".to_string()]);
}

#[test]
fn trim_agrees_with_the_standard_trim() {
    let cases = [
        "",
        " ",
        "a",
        "  a b  ",
        "\t\n a \r\n",
        "\u{3000}wide\u{2003}",
        "\u{00A0}nbsp\u{0085}",
        "inner  space",
        "   ",
    ];
    for text in cases {
        assert_eq!(trimmed(text), text.trim(), "{:?}", text);
    }
    assert_eq!(trimmed("  a b  "), "a b");
}

#[test]
fn text_helpers() {
    assert_eq!(chars_of("héy"), vec!['h', 'é', 'y']);
    assert!(same_text("abc", "abc"));
    assert!(!same_text("abc", "abd"));
    assert!(!same_text("abc", "ab"));
    assert!(same_text("", ""));
    assert_eq!(joined("ab", "cd"), "abcd");
    assert!(contains_text("abc", ""));
    assert!(!contains_text("", "a"));
}

#[test]
fn order_agrees_with_the_standard_order() {
    let samples = ["", "a", "A", "ab", "abc", "b", "é", "z", "zz", "\u{10000}", "\u{FFFF}", "a b"];
    for a in samples {
        for b in samples {
            assert_eq!(text_precedes(a, b), a <= b, "{:?} {:?}", a, b);
        }
    }
}

#[test]
fn undeclared_variables_are_denied_least_first() {
    let registry = registry_with(&[("person", PERSON)]);
    let mut store = TemplateStore::new();
    let def = definition("t", "{{ zeta }}{{ name }}{{ beta }}{{ alpha.x }}", &["person"]);
    for _ in 0..20 {
        let error = store.compile(&registry, &def).unwrap_err();
        assert_eq!(error.message, "Variable 'alpha.x' is not allowed by schema");
    }
}

// ---- documents ----

#[test]
fn parse_gives_the_document() {
    let doc = json(r#"{"a":[1,"x",null,true],"b":{"c":"d"}}"#);
    let a = doc.get("a").unwrap().as_array().unwrap();
    assert_eq!(a.len(), 4);
    assert!(matches!(a[0], Json::Number(_)));
    assert_eq!(a[1].as_text().unwrap(), "x");
    assert!(matches!(a[2], Json::Null));
    assert!(matches!(a[3], Json::Bool(true)));
    assert_eq!(doc.get("b").unwrap().get("c").unwrap().as_text().unwrap(), "d");
    assert!(doc.get("z").is_none());
    assert!(doc.is_object());
    assert!(!a[0].is_object());
    assert!(a[1].get("x").is_none());
    assert!(doc.as_text().is_none());
    assert!(doc.as_array().is_none());
}

#[test]
fn parse_reports_the_parser_message() {
    let err = parse_json(b"invalid json").unwrap_err();
    assert_eq!(err, "expected value at line 1 column 1");
}

#[test]
fn later_member_wins() {
    let doc = Json::Object(vec![
        ("k".to_string(), Json::Text("first".to_string())),
        ("other".to_string(), Json::Null),
        ("k".to_string(), Json::Text("second".to_string())),
    ]);
    assert_eq!(doc.get("k").unwrap().as_text().unwrap(), "second");
}

// ---- registry ----

#[test]
fn register_then_lookup_gives_the_schema() {
    let mut registry = SchemaRegistry::new();
    assert!(registry.lookup("person").is_none());
    assert_eq!(registry.register("person".to_string(), json(PERSON)), Ok(()));
    let found = registry.lookup("person").unwrap();
    assert!(found.get("properties").unwrap().get("name").is_some());
    assert!(registry.lookup("Person").is_none());
}

#[test]
fn invalid_schema_is_refused_and_not_stored() {
    let mut registry = SchemaRegistry::new();
    let outcome = registry.register("bad".to_string(), json(r#"{"properties":"nope"}"#));
    assert!(outcome.is_err());
    assert!(registry.lookup("bad").is_none());
    let outcome = registry.register("number".to_string(), json("5"));
    assert_eq!(outcome, Err("not an object".to_string()));
    assert!(registry.lookup("number").is_none());
    for (name, document) in [("null", "null"), ("text", r#""{}""#), ("list", "[]")] {
        let outcome = registry.register(name.to_string(), json(document));
        assert_eq!(outcome, Err("not an object".to_string()));
        assert!(registry.lookup(name).is_none());
    }
}

#[test]
fn refused_schema_leaves_the_earlier_one() {
    let mut registry = registry_with(&[("person", PERSON)]);
    let outcome = registry.register("person".to_string(), json("5"));
    assert!(outcome.is_err());
    assert!(registry.lookup("person").unwrap().get("properties").is_some());
}

#[test]
fn registering_again_replaces() {
    let mut registry = registry_with(&[("c", r#"{"properties":{"a":{}}}"#), ("d", PERSON)]);
    registry.register("c".to_string(), json(r#"{"properties":{"b":{}}}"#)).unwrap();
    let found = registry.lookup("c").unwrap().get("properties").unwrap();
    assert!(found.get("a").is_none());
    assert!(found.get("b").is_some());
    assert!(registry.lookup("d").is_some());
}

#[test]
fn register_validated_follows_the_judgement() {
    let mut registry = SchemaRegistry::new();
    let refused = registry.register_validated(
        "a".to_string(),
        Json::Null,
        Err("no".to_string()),
    );
    assert_eq!(refused, Err("no".to_string()));
    assert!(registry.lookup("a").is_none());
    let accepted = registry.register_validated("a".to_string(), Json::Null, Ok(()));
    assert_eq!(accepted, Ok(()));
    assert!(matches!(registry.lookup("a"), Some(Json::Null)));
}

#[test]
fn validator_judges_schemas() {
    assert_eq!(validate_schema(&json(PERSON)), Ok(()));
    assert_eq!(validate_schema(&json("true")), Ok(()));
    assert_eq!(validate_schema(&json(r#""text""#)), Err("not an object".to_string()));
    assert_eq!(validate_schema(&json("null")), Err("not an object".to_string()));
    assert_eq!(validate_schema(&json("[{}]")), Err("not an object".to_string()));
    assert_eq!(validate_schema(&json("1.5")), Err("not an object".to_string()));
    assert_eq!(validate_schema(&json("false")), Ok(()));
    assert_eq!(validate_schema(&json("{}")), Ok(()));
    assert!(validate_schema(&json(r#"{"type":5}"#)).is_err());
}

// ---- authorization ----

#[test]
fn dotted_paths_walk_properties() {
    let schema = json(PERSON);
    assert!(schema_declares(&schema, &names(&["name"])));
    assert!(schema_declares(&schema, &names(&["address"])));
    assert!(schema_declares(&schema, &names(&["address", "city"])));
    assert!(!schema_declares(&schema, &names(&["address", "street"])));
    assert!(!schema_declares(&schema, &names(&["name", "first"])));
    assert!(!schema_declares(&schema, &names(&["age"])));
    assert!(!schema_declares(&schema, &names(&[])));
    assert!(!schema_declares(&json(r#"{"properties":["name"]}"#), &names(&["name"])));
    assert!(!schema_declares(&json("[]"), &names(&["name"])));
}

#[test]
fn any_registered_component_may_authorize() {
    let registry = registry_with(&[("person", PERSON), ("flag", r#"{"properties":{"on":{}}}"#)]);
    let both = names(&["flag", "missing", "person"]);
    assert!(is_authorized(&registry, &both, "on"));
    assert!(is_authorized(&registry, &both, "address.city"));
    assert!(!is_authorized(&registry, &both, "address.zip"));
    assert!(!is_authorized(&registry, &names(&["missing"]), "on"));
    assert!(!is_authorized(&registry, &names(&[]), "on"));
    assert!(!is_authorized(&registry, &both, ""));
    assert!(!is_authorized(&registry, &both, "on."));
}

#[test]
fn least_unauthorized_variable_is_named() {
    let registry = registry_with(&[("person", PERSON)]);
    let components = names(&["person"]);
    assert_eq!(
        validate_template_variables(&registry, &components, &names(&["name", "address.city"])),
        Ok(())
    );
    assert_eq!(validate_template_variables(&registry, &components, &names(&[])), Ok(()));
    assert_eq!(
        validate_template_variables(&registry, &components, &names(&["name", "x", "y"])),
        Err("Variable 'x' is not allowed by schema".to_string())
    );
    assert_eq!(
        validate_template_variables(&registry, &components, &names(&["y", "name", "x", "xa"])),
        Err("Variable 'x' is not allowed by schema".to_string())
    );
    assert_eq!(
        validate_template_variables(&registry, &components, &names(&["b", "B", "", "a"])),
        Err("Variable '' is not allowed by schema".to_string())
    );
    assert_eq!(
        validate_template_variables(&registry, &components, &names(&["é", "z", "zz"])),
        Err("Variable 'z' is not allowed by schema".to_string())
    );
}

// ---- compiling ----

#[test]
fn engine_errors_are_classified() {
    let plain = classify_compile_failure("syntax error: unexpected end (in t:1)".to_string());
    assert_eq!(plain.error_type, CompileErrorType::CompileError);
    assert_eq!(plain.message, "syntax error: unexpected end (in t:1)");
    assert_eq!(plain.missing_dependencies, None);

    let missing = classify_compile_failure("template not found: child not found ".to_string());
    assert_eq!(missing.error_type, CompileErrorType::MissingDependency);
    assert_eq!(missing.message, "template not found: child not found ");
    assert_eq!(missing.missing_dependencies, Some(names(&[": child"])));

    let bare = classify_compile_failure("not found".to_string());
    assert_eq!(bare.error_type, CompileErrorType::MissingDependency);
    assert_eq!(bare.missing_dependencies, Some(names(&[])));

    let several =
        classify_compile_failure("a not found  b\tnot found not found c d ".to_string());
    assert_eq!(several.missing_dependencies, Some(names(&["b", "c d"])));
}

#[test]
fn definitions_are_judged() {
    let registry = registry_with(&[("person", PERSON)]);
    let def = definition("t", "unused", &["person"]);
    let kept = judge_definition(&registry, &def, Ok(names(&["address.city", "name"]))).unwrap();
    assert_eq!(kept, names(&["address.city", "name"]));

    let denied = judge_definition(&registry, &def, Ok(names(&["name", "b", "a"]))).unwrap_err();
    assert_eq!(denied.error_type, CompileErrorType::CompileError);
    assert_eq!(denied.message, "Variable 'a' is not allowed by schema");
    assert_eq!(denied.missing_dependencies, None);

    let failed = judge_definition(&registry, &def, Err("bad not found x".to_string())).unwrap_err();
    assert_eq!(failed.error_type, CompileErrorType::MissingDependency);
    assert_eq!(failed.missing_dependencies, Some(names(&["x"])));
}

#[test]
fn compile_stores_what_is_authorized() {
    let registry = registry_with(&[("person", PERSON)]);
    let mut store = TemplateStore::new();
    let def = definition("card", "{{ name }} of {{ address.city }}", &["person"]);
    assert!(store.compile(&registry, &def).is_ok());
    assert!(store.contains("card"));
    let compiled = store.get("card").unwrap();
    assert_eq!(compiled.name(), "card");
    assert_eq!(compiled.source(), "{{ name }} of {{ address.city }}");
    let mut variables = compiled.variables().clone();
    variables.sort();
    assert_eq!(variables, names(&["address.city", "name"]));
}

#[test]
fn compile_refuses_an_undeclared_variable() {
    let registry = registry_with(&[("person", PERSON)]);
    let mut store = TemplateStore::new();
    let def = definition("card", "{{ name }} {{ secret }}", &["person"]);
    let error = store.compile(&registry, &def).unwrap_err();
    assert_eq!(error.error_type, CompileErrorType::CompileError);
    assert_eq!(error.message, "Variable 'secret' is not allowed by schema");
    assert_eq!(error.missing_dependencies, None);
    assert!(!store.contains("card"));
    assert!(store.get("card").is_none());
}

#[test]
fn compile_without_components_allows_no_variable() {
    let registry = registry_with(&[("person", PERSON)]);
    let mut store = TemplateStore::new();
    let error = store
        .compile(&registry, &definition("t", "{{ unauthorised_variable }}", &[]))
        .unwrap_err();
    assert_eq!(error.error_type, CompileErrorType::CompileError);
    assert!(error.message.contains("unauthorised_variable"));
    assert!(store.compile(&registry, &definition("plain", "no variables", &[])).is_ok());
}

#[test]
fn loop_variables_are_not_free() {
    let registry = registry_with(&[("list", r#"{"properties":{"items":{"type":"array"}}}"#)]);
    let mut store = TemplateStore::new();
    let def = definition("l", "{% for item in items %}{{ item }},{% endfor %}", &["list"]);
    assert!(store.compile(&registry, &def).is_ok());
    let context = json(r#"{"items":[1,"two",3.5]}"#);
    match store.render("l", &context) {
        RenderResult::Success { result } => assert_eq!(result, "1,two,3.5,"),
        RenderResult::Error { error } => panic!("{}", error.message),
    }
}

#[test]
fn syntax_error_is_a_compile_error() {
    let registry = SchemaRegistry::new();
    let mut store = TemplateStore::new();
    let error = store.compile(&registry, &definition("broken", "{% if %}", &[])).unwrap_err();
    assert_eq!(error.error_type, CompileErrorType::CompileError);
    assert!(error.message.contains("syntax error"));
    assert!(error.message.contains("broken"));
    assert!(!store.contains("broken"));
}

#[test]
fn failed_compile_keeps_the_earlier_template() {
    let registry = registry_with(&[("person", PERSON)]);
    let mut store = TemplateStore::new();
    store.compile(&registry, &definition("t", "Hi {{ name }}", &["person"])).unwrap();
    assert!(store.compile(&registry, &definition("t", "{% if %}", &["person"])).is_err());
    assert!(store.compile(&registry, &definition("t", "{{ secret }}", &["person"])).is_err());
    assert_eq!(store.get("t").unwrap().source(), "Hi {{ name }}");
    match store.render("t", &json(r#"{"name":"Ann"}"#)) {
        RenderResult::Success { result } => assert_eq!(result, "Hi Ann"),
        RenderResult::Error { error } => panic!("{}", error.message),
    }
}

#[test]
fn compiling_twice_succeeds_and_the_later_source_renders() {
    let registry = registry_with(&[("person", PERSON)]);
    let mut store = TemplateStore::new();
    let def = definition("t", "Hi {{ name }}", &["person"]);
    assert!(store.compile(&registry, &def).is_ok());
    assert!(store.compile(&registry, &def).is_ok());
    let context = json(r#"{"name":"Ann"}"#);
    assert!(matches!(store.render("t", &context), RenderResult::Success { result } if result == "Hi Ann"));
    store.compile(&registry, &definition("t", "Bye {{ name }}", &["person"])).unwrap();
    assert!(matches!(store.render("t", &context), RenderResult::Success { result } if result == "Bye Ann"));
}

#[test]
fn batch_stops_at_the_first_refusal() {
    let registry = registry_with(&[("person", PERSON)]);
    let mut store = TemplateStore::new();
    let batch = vec![
        definition("one", "{{ name }}", &["person"]),
        definition("two", "{{ nope }}", &["person"]),
        definition("three", "{{ name }}", &["person"]),
    ];
    match store.compile_batch(&registry, &batch) {
        CompileResult::Error { error } => {
            assert_eq!(error.message, "Variable 'nope' is not allowed by schema")
        }
        CompileResult::Success => panic!("the second definition is not authorized"),
    }
    assert!(store.contains("one"));
    assert!(!store.contains("two"));
    assert!(!store.contains("three"));
    assert!(matches!(store.compile_batch(&registry, &vec![]), CompileResult::Success));
}

// ---- rendering ----

#[test]
fn render_keeps_the_text_as_the_engine_made_it() {
    let registry = registry_with(&[("person", PERSON)]);
    let mut store = TemplateStore::new();
    store.compile(&registry, &definition("t", "  {{ name }} \n\n", &["person"])).unwrap();
    let context = json(r#"{"name":" Ann "}"#);
    let first = store.render("t", &context);
    let second = store.render("t", &context);
    match (first, second) {
        (RenderResult::Success { result: a }, RenderResult::Success { result: b }) => {
            assert_eq!(a, "   Ann  \n");
            assert_eq!(a, b);
        }
        _ => panic!("both renders succeed"),
    }
}

#[test]
fn render_passes_the_whole_context() {
    let registry = registry_with(&[(
        "c",
        r#"{"properties":{"user":{"properties":{"name":{}}},"items":{},"n":{},"flag":{},"none":{}}}"#,
    )]);
    let mut store = TemplateStore::new();
    let source = "{{ user.name }}|{{ items[1] }}|{{ n }}|{{ flag }}|{{ none }}";
    store.compile(&registry, &definition("t", source, &["c"])).unwrap();
    let context =
        json(r#"{"user":{"name":"A"},"items":[1,2],"n":-3.5,"flag":false,"none":null}"#);
    match store.render("t", &context) {
        RenderResult::Success { result } => assert_eq!(result, "A|2|-3.5|False|None"),
        RenderResult::Error { error } => panic!("{}", error.message),
    }
}

#[test]
fn render_sees_the_later_of_two_members() {
    let registry = registry_with(&[("person", PERSON)]);
    let mut store = TemplateStore::new();
    store.compile(&registry, &definition("t", "{{ name }}", &["person"])).unwrap();
    let context = Json::Object(vec![
        ("name".to_string(), Json::Text("first".to_string())),
        ("name".to_string(), Json::Text("second".to_string())),
    ]);
    assert_eq!(context.get("name").unwrap().as_text().unwrap(), "second");
    match store.render("t", &context) {
        RenderResult::Success { result } => assert_eq!(result, "second"),
        RenderResult::Error { error } => panic!("{}", error.message),
    }
}

#[test]
fn engine_globals_are_variables_like_any_other() {
    let registry = registry_with(&[("d", r#"{"properties":{"debug":{}}}"#)]);
    let mut store = TemplateStore::new();
    store.compile(&registry, &definition("a", "x", &[])).unwrap();
    let refused = store.compile(&registry, &definition("b", "{{ debug() }}", &[])).unwrap_err();
    assert_eq!(refused.message, "Variable 'debug' is not allowed by schema");
    store.compile(&registry, &definition("b", "{{ debug() }}", &["d"])).unwrap();
    match store.render("b", &json("{}")) {
        RenderResult::Success { result } => assert!(!result.is_empty()),
        RenderResult::Error { error } => panic!("{}", error.message),
    }
}

#[test]
fn undefined_value_fails_the_render() {
    let registry = registry_with(&[("person", PERSON)]);
    let mut store = TemplateStore::new();
    store.compile(&registry, &definition("t", "Hi {{ name }}", &["person"])).unwrap();
    match store.render("t", &json("{}")) {
        RenderResult::Error { error } => {
            assert_eq!(error.error_type, RenderErrorType::RenderError);
            assert_eq!(error.message, "Failed to render template");
        }
        RenderResult::Success { result } => panic!("rendered {:?}", result),
    }
}

#[test]
fn unknown_template_is_a_parse_error() {
    let store = TemplateStore::new();
    match store.render("nonexistent", &json("{}")) {
        RenderResult::Error { error } => {
            assert_eq!(error.error_type, RenderErrorType::ParseError);
            assert_eq!(error.message, "Template not found");
        }
        RenderResult::Success { result } => panic!("rendered {:?}", result),
    }
}

#[test]
fn rendering_is_reported() {
    assert!(matches!(
        report_rendering(Some(" x ".to_string())),
        RenderResult::Success { result } if result == " x "
    ));
    match report_rendering(None) {
        RenderResult::Error { error } => {
            assert_eq!(error.error_type, RenderErrorType::RenderError);
            assert_eq!(error.message, "Failed to render template");
        }
        RenderResult::Success { .. } => panic!("no text was rendered"),
    }
}

// ---- replies ----

#[test]
fn replies_have_their_json_text() {
    assert_eq!(CompileResult::Success.encode(), r#"{"type":"Success"}"#);
    assert_eq!(RegisterResult::Success.encode(), r#"{"type":"Success"}"#);
    assert_eq!(
        RegisterResult::Error { message: "say \"no\"\n".to_string() }.encode(),
        r#"{"type":"Error","message":"say \"no\"\n"}"#
    );
    assert_eq!(
        RenderResult::Success { result: "Hello \\ World!".to_string() }.encode(),
        r#"{"type":"Success","result":"Hello \\ World!"}"#
    );
    assert_eq!(
        RenderResult::Error {
            error: RenderError {
                error_type: RenderErrorType::RenderError,
                message: "Failed to render template".to_string(),
            },
        }
        .encode(),
        r#"{"type":"Error","error":{"error_type":"RenderError","message":"Failed to render template"}}"#
    );
    assert_eq!(
        RenderError { error_type: RenderErrorType::ParseError, message: "m".to_string() }.encode(),
        r#"{"error_type":"ParseError","message":"m"}"#
    );
}

fn quoted_by_rule(text: &str) -> String {
    let mut out = String::from("\"");
    for c in text.chars() {
        match c {
            '"' => out.push_str("\\\""),
            '\\' => out.push_str("\\\\"),
            '\u{08}' => out.push_str("\\b"),
            '\u{09}' => out.push_str("\\t"),
            '\u{0A}' => out.push_str("\\n"),
            '\u{0C}' => out.push_str("\\f"),
            '\u{0D}' => out.push_str("\\r"),
            c if (c as u32) < 0x20 => {
                let digits = b"0123456789abcdef";
                out.push_str("\\u00");
                out.push(digits[(c as usize) / 16] as char);
                out.push(digits[(c as usize) % 16] as char);
            }
            c => out.push(c),
        }
    }
    out.push('"');
    out
}

#[test]
fn texts_are_quoted_by_the_rule() {
    let mut code: u32 = 0;
    while code <= 0x10FFFF {
        if let Some(c) = char::from_u32(code) {
            let text = format!("a{}b", c);
            let encoded = RegisterResult::Error { message: text.clone() }.encode();
            let expected = format!("{{\"type\":\"Error\",\"message\":{}}}", quoted_by_rule(&text));
            assert_eq!(encoded, expected, "U+{:04X}", code);
        }
        code += if code < 0x3000 { 1 } else { 0x101 };
    }
    assert_eq!(
        RegisterResult::Error { message: "\u{1}\u{1f}\u{7f}/\u{8}\u{c}\t\r".to_string() }.encode(),
        "{\"type\":\"Error\",\"message\":\"\\u0001\\u001f\u{7f}/\\b\\f\\t\\r\"}"
    );
    assert_eq!(
        RegisterResult::Error { message: String::new() }.encode(),
        r#"{"type":"Error","message":""}"#
    );
}

#[test]
fn compile_errors_have_their_json_text() {
    let plain = CompileError {
        error_type: CompileErrorType::CompileError,
        message: "m".to_string(),
        missing_dependencies: None,
    };
    assert_eq!(plain.encode(), r#"{"error_type":"CompileError","message":"m"}"#);
    let missing = CompileError {
        error_type: CompileErrorType::MissingDependency,
        message: "x not found".to_string(),
        missing_dependencies: Some(names(&["a", "b\"c", "d"])),
    };
    assert_eq!(
        CompileResult::Error { error: missing }.encode(),
        r#"{"type":"Error","error":{"error_type":"MissingDependency","message":"x not found","missing_dependencies":["a","b\"c","d"]}}"#
    );
    let none = CompileError {
        error_type: CompileErrorType::ParseError,
        message: "p".to_string(),
        missing_dependencies: Some(vec![]),
    };
    assert_eq!(
        none.encode(),
        r#"{"error_type":"ParseError","message":"p","missing_dependencies":[]}"#
    );
    let one = CompileError {
        error_type: CompileErrorType::SchemaValidationError,
        message: "s".to_string(),
        missing_dependencies: Some(names(&["only"])),
    };
    assert_eq!(
        one.encode(),
        r#"{"error_type":"SchemaValidationError","message":"s","missing_dependencies":["only"]}"#
    );
}

#[test]
fn registration_is_answered() {
    assert!(matches!(register_reply(Ok(())), RegisterResult::Success));
    match register_reply(Err("not an object".to_string())) {
        RegisterResult::Error { message } => {
            assert_eq!(message, "Invalid schema for component: not an object")
        }
        RegisterResult::Success => panic!("the schema was refused"),
    }
}

// ---- requests ----

#[test]
fn registration_is_a_pair() {
    let (name, schema) = decode_registration(json(r#"["n",{"a":1}]"#)).unwrap();
    assert_eq!(name, "n");
    assert!(schema.get("a").is_some());
    assert!(decode_registration(json(r#"["n"]"#)).is_none());
    assert!(decode_registration(json(r#"["n",{},{}]"#)).is_none());
    assert!(decode_registration(json(r#"[1,{}]"#)).is_none());
    assert!(decode_registration(json(r#"{"n":{}}"#)).is_none());
    assert!(decode_registration(json(r#""n""#)).is_none());
}

#[test]
fn template_key_is_the_reserved_key() {
    assert_eq!(TEMPLATE_KEY, "template:01JVK339CW6Q67VAMXCA7XAK7D");
    let entity = Json::Object(vec![(
        TEMPLATE_KEY.to_string(),
        json(r#"{"name":"n","source":"s","components":[]}"#),
    )]);
    assert_eq!(decode_definition(&entity).unwrap().name, "n");
}

#[test]
fn entities_carry_templates() {
    let entity = json(
        r#"{"template:01JVK339CW6Q67VAMXCA7XAK7D":{"name":"n","source":"s","components":["a",1,"b",null]},"other":1}"#,
    );
    let found = decode_definition(&entity).unwrap();
    assert_eq!(found.name, "n");
    assert_eq!(found.source, "s");
    assert_eq!(found.components, names(&["a", "b"]));

    for text in [
        r#"{}"#,
        r#"{"template":{"name":"n","source":"s","components":[]}}"#,
        r#"{"template:01JVK339CW6Q67VAMXCA7XAK7D":"n"}"#,
        r#"{"template:01JVK339CW6Q67VAMXCA7XAK7D":{"source":"s","components":[]}}"#,
        r#"{"template:01JVK339CW6Q67VAMXCA7XAK7D":{"name":1,"source":"s","components":[]}}"#,
        r#"{"template:01JVK339CW6Q67VAMXCA7XAK7D":{"name":"n","components":[]}}"#,
        r#"{"template:01JVK339CW6Q67VAMXCA7XAK7D":{"name":"n","source":"s"}}"#,
        r#"{"template:01JVK339CW6Q67VAMXCA7XAK7D":{"name":"n","source":"s","components":"a"}}"#,
    ] {
        assert!(decode_definition(&json(text)).is_none(), "{}", text);
    }
}

#[test]
fn batch_is_a_list_of_entities() {
    let batch = decode_batch(&json(
        r#"[{"x":1},{"template:01JVK339CW6Q67VAMXCA7XAK7D":{"name":"a","source":"","components":[]}},{},{"template:01JVK339CW6Q67VAMXCA7XAK7D":{"name":"b","source":"","components":[]}}]"#,
    ))
    .unwrap();
    let found: Vec<&str> = batch.iter().map(|d| d.name.as_str()).collect();
    assert_eq!(found, vec!["a", "b"]);
    assert!(decode_batch(&json("[]")).unwrap().is_empty());
    assert!(decode_batch(&json("{}")).is_none());
    assert!(decode_batch(&json("[{},1]")).is_none());
    assert!(decode_batch(&json("[[]]")).is_none());
}

#[test]
fn entities_without_a_template_are_passed_over() {
    let registry = SchemaRegistry::new();
    let mut store = TemplateStore::new();
    let reply = compile_request(&mut store, &registry, br#"[{"something":"else"},{}]"#);
    assert!(matches!(reply, CompileResult::Success));
}

#[test]
fn misshapen_batch_is_a_parse_error() {
    let registry = SchemaRegistry::new();
    let mut store = TemplateStore::new();
    for input in [&br#"{"a":1}"#[..], &br#"[1]"#[..], &br#""text""#[..]] {
        match compile_request(&mut store, &registry, input) {
            CompileResult::Error { error } => {
                assert_eq!(error.error_type, CompileErrorType::ParseError);
                assert_eq!(error.message, "invalid type: expected a sequence of maps");
                assert_eq!(error.missing_dependencies, None);
            }
            CompileResult::Success => panic!("not a batch"),
        }
    }
}

#[test]
fn malformed_requests_are_parse_errors_and_change_nothing() {
    let mut registry = registry_with(&[("person", PERSON)]);
    let mut store = TemplateStore::new();
    store.compile(&registry, &definition("t", "{{ name }}", &["person"])).unwrap();

    match register_request(&mut registry, b"{this is not valid json}") {
        RegisterResult::Error { message } => {
            assert_eq!(message, "Failed to parse component registration JSON")
        }
        RegisterResult::Success => panic!("nothing was registered"),
    }
    match register_request(&mut registry, br#"["person"]"#) {
        RegisterResult::Error { message } => {
            assert_eq!(message, "Failed to parse component registration JSON")
        }
        RegisterResult::Success => panic!("nothing was registered"),
    }
    assert!(registry.lookup("person").unwrap().get("properties").is_some());

    match compile_request(&mut store, &registry, b"[{") {
        CompileResult::Error { error } => {
            assert_eq!(error.error_type, CompileErrorType::ParseError);
            assert!(error.message.contains("EOF"));
        }
        CompileResult::Success => panic!("nothing was compiled"),
    }
    assert_eq!(store.get("t").unwrap().source(), "{{ name }}");

    match render_request(&store, b"t", b"{") {
        RenderResult::Error { error } => {
            assert_eq!(error.error_type, RenderErrorType::ParseError);
            assert_eq!(error.message, "Invalid context");
        }
        RenderResult::Success { .. } => panic!("the context does not decode"),
    }
    match render_request(&store, &[0xff, 0xfe], b"{}") {
        RenderResult::Error { error } => {
            assert_eq!(error.error_type, RenderErrorType::ParseError);
            assert_eq!(error.message, "Invalid template name");
        }
        RenderResult::Success { .. } => panic!("the name is not text"),
    }
    match render_request(&store, &[0xff], b"{") {
        RenderResult::Error { error } => assert_eq!(error.message, "Invalid template name"),
        RenderResult::Success { .. } => panic!("the name is not text"),
    }
    match render_request(&store, "t".as_bytes(), r#"{"name":"é"}"#.as_bytes()) {
        RenderResult::Success { result } => assert_eq!(result, "é"),
        RenderResult::Error { error } => panic!("{}", error.message),
    }
}

#[test]
fn register_request_stores_or_refuses() {
    let mut registry = SchemaRegistry::new();
    let reply = register_request(&mut registry, br#"["c",{"properties":{"a":{}}}]"#);
    assert!(matches!(reply, RegisterResult::Success));
    assert!(registry.lookup("c").is_some());
    match register_request(&mut registry, br#"["d",7]"#) {
        RegisterResult::Error { message } => {
            assert_eq!(message, "Invalid schema for component: not an object")
        }
        RegisterResult::Success => panic!("7 is no schema"),
    }
    assert!(registry.lookup("d").is_none());
}

// ---- transport ----

#[test]
fn write_copies_what_fits() {
    let mut out = vec![9u8; 5];
    assert_eq!(write_to_memory(&mut out, b"abc"), 3);
    assert_eq!(out, vec![b'a', b'b', b'c', 9, 9]);
    assert_eq!(write_to_memory(&mut out, b"0123456789"), 5);
    assert_eq!(out, b"01234".to_vec());
    assert_eq!(write_to_memory(&mut out, b""), 0);
    assert_eq!(out, b"01234".to_vec());
    let mut none: Vec<u8> = Vec::new();
    assert_eq!(write_to_memory(&mut none, b"abc"), 0);
    assert!(none.is_empty());
}

#[test]
fn reply_is_cut_off_at_the_capacity() {
    let store = TemplateStore::new();
    let full = br#"{"type":"Error","error":{"error_type":"ParseError","message":"Template not found"}}"#;
    let mut buffer = vec![0xAAu8; 64];
    let written = render_template(&store, b"nonexistent", b"{}", &mut buffer[..10]);
    assert_eq!(written, 10);
    assert_eq!(&buffer[..10], &full[..10]);
    assert!(buffer[10..].iter().all(|b| *b == 0xAA));

    let mut large = vec![0u8; 1024];
    let written = render_template(&store, b"nonexistent", b"{}", &mut large);
    assert_eq!(written, full.len());
    assert_eq!(&large[..written], &full[..]);

    let mut exact = vec![0u8; full.len()];
    assert_eq!(render_template(&store, b"nonexistent", b"{}", &mut exact), full.len());
    assert_eq!(exact, full.to_vec());
}

#[test]
fn operations_write_their_replies() {
    let mut registry = SchemaRegistry::new();
    let mut store = TemplateStore::new();
    let mut out = vec![0u8; 256];

    let n = register_component(&mut registry, br#"["c",{"properties":{"who":{}}}]"#, &mut out);
    assert_eq!(&out[..n], br#"{"type":"Success"}"#);
    let n = register_component(&mut registry, b"nonsense", &mut out);
    assert_eq!(
        &out[..n],
        &br#"{"type":"Error","message":"Failed to parse component registration JSON"}"#[..]
    );

    let batch = br#"[{"template:01JVK339CW6Q67VAMXCA7XAK7D":{"name":"t","source":"Hi {{ who }}","components":["c"]}}]"#;
    let n = compile_templates(&mut store, &registry, batch, &mut out);
    assert_eq!(&out[..n], br#"{"type":"Success"}"#);

    let denied = br#"[{"template:01JVK339CW6Q67VAMXCA7XAK7D":{"name":"u","source":"{{ unauthorised_variable }}","components":[]}}]"#;
    let n = compile_templates(&mut store, &registry, denied, &mut out);
    assert_eq!(
        &out[..n],
        &br#"{"type":"Error","error":{"error_type":"CompileError","message":"Variable 'unauthorised_variable' is not allowed by schema"}}"#[..]
    );

    let n = render_template(&store, b"t", br#"{"who":"\"you\""}"#, &mut out);
    assert_eq!(&out[..n], &br#"{"type":"Success","result":"Hi \"you\""}"#[..]);
}

use react_intl_auto::ast_analysis;
use react_intl_auto::ast_call::{analyze_define_messages, analyze_format_message, is_define_messages_call, is_format_message_call};
use react_intl_auto::ast_import::ImportVisitor;
use react_intl_auto::ast_jsx::{analyze_jsx_element, is_react_intl_component};
use react_intl_auto::gen_id::hash_string;
use react_intl_auto::id_generator::murmur32_hash;
use react_intl_auto::syntax::{JsSpan, 
    JsCallExpr, JsCallee, JsExpr, JsExprOrSpread, JsIdent, JsImportDecl, JsImportNamedSpecifier, JsImportSpecifier, JsxAttr, JsxAttrName,
    JsxAttrOrSpread, JsxAttrValue, JsxElement, JsxElementName, JsxExpr, JsxExprContainer, JsxOpeningElement, JsKeyValueProp,
    JsLit, JsMemberExpr, JsMemberProp, JsModuleExportName, JsObjectLit, JsProp, JsPropName, JsPropOrSpread, JsStr, JsTpl, JsTplElement,
};
use react_intl_auto::types::{CoreOptions, CoreState, PathEnv, RemovePrefix};

fn s(v: &str) -> JsStr {
    JsStr { span: JsSpan { lo: 0, hi: 0 }, value: v.to_string() }
}

fn ident(v: &str) -> JsIdent {
    JsIdent { span: JsSpan { lo: 0, hi: 0 }, sym: v.to_string() }
}

fn str_expr(v: &str) -> JsExpr {
    JsExpr::Lit(JsLit::Str(s(v)))
}

fn tpl(quasis: &[&str], exprs: usize) -> JsExpr {
    JsExpr::Tpl(JsTpl {
        span: JsSpan { lo: 0, hi: 0 },
        exprs: (0..exprs as u64).collect(),
        quasis: quasis.iter().map(|q| JsTplElement { raw: q.to_string() }).collect(),
    })
}

fn kv(key: &str, value: JsExpr) -> JsPropOrSpread {
    JsPropOrSpread::Prop(Box::new(JsProp::KeyValue(JsKeyValueProp { key: JsPropName::Ident(ident(key)), value: Box::new(value) })))
}

fn obj(props: Vec<JsPropOrSpread>) -> JsExpr {
    JsExpr::Object(JsObjectLit { span: JsSpan { lo: 0, hi: 0 }, props })
}

fn call(name: &str, args: Vec<JsExpr>) -> JsCallExpr {
    JsCallExpr {
        span: JsSpan { lo: 0, hi: 0 },
        callee: JsCallee::Expr(Box::new(JsExpr::Ident(ident(name)))),
        args: args.into_iter().map(|e| JsExprOrSpread { spread: false, expr: Box::new(e) }).collect(),
    }
}

fn attr_str(name: &str, v: &str) -> JsxAttrOrSpread {
    JsxAttrOrSpread::JSXAttr(JsxAttr { span: JsSpan { lo: 0, hi: 0 }, name: JsxAttrName::Ident(ident(name)), value: Some(JsxAttrValue::Str(s(v))) })
}

fn attr_expr(name: &str, e: JsExpr) -> JsxAttrOrSpread {
    JsxAttrOrSpread::JSXAttr(JsxAttr {
        span: JsSpan { lo: 0, hi: 0 },
        name: JsxAttrName::Ident(ident(name)),
        value: Some(JsxAttrValue::JSXExprContainer(JsxExprContainer { expr: JsxExpr::Expr(Box::new(e)) })),
    })
}

fn jsx(name: &str, attrs: Vec<JsxAttrOrSpread>) -> JsxElement {
    JsxElement { span: JsSpan { lo: 0, hi: 0 }, opening: JsxOpeningElement { name: JsxElementName::Ident(ident(name)), attrs } }
}

fn create_test_state() -> CoreState {
    CoreState::new(
        "/test/file.js".to_string(),
        CoreOptions {
            remove_prefix: Some(RemovePrefix::String("test".to_string())),
            separator: ".".to_string(),
            ..Default::default()
        },
        PathEnv { cwd: "/repo/crates/react-intl-core".to_string(), project_root: None },
    )
}

fn two_strings_call() -> JsCallExpr {
    call("defineMessages", vec![obj(vec![kv("hello", str_expr("Hello World")), kv("goodbye", str_expr("Goodbye"))])])
}

#[test]
fn call_test_analyze_define_messages_with_strings() {
    let call = two_strings_call();
    let state = create_test_state();
    let result = analyze_define_messages(&call, &state);
    assert_eq!(result.len(), 2);
    let hello_msg = &result[0];
    let goodbye_msg = &result[1];
    assert_eq!(hello_msg.0, "hello");
    assert_eq!(goodbye_msg.0, "goodbye");
    assert_eq!(hello_msg.1.default_message, Some("Hello World".to_string()));
    assert_eq!(goodbye_msg.1.default_message, Some("Goodbye".to_string()));
    assert!(!hello_msg.1.id.is_empty());
    assert!(!goodbye_msg.1.id.is_empty());
    assert!(hello_msg.2);
    assert!(goodbye_msg.2);
}

fn object_call() -> JsCallExpr {
    call(
        "defineMessages",
        vec![obj(vec![kv("hello", obj(vec![kv("defaultMessage", str_expr("Hello World")), kv("description", str_expr("A greeting"))]))])],
    )
}

#[test]
fn call_test_analyze_define_messages_with_objects() {
    let call = object_call();
    let state = create_test_state();
    let result = analyze_define_messages(&call, &state);
    assert_eq!(result.len(), 1);
    let hello_msg = &result[0];
    assert_eq!(hello_msg.0, "hello");
    assert_eq!(hello_msg.1.default_message, Some("Hello World".to_string()));
    assert_eq!(hello_msg.1.description, Some("A greeting".to_string()));
    assert!(hello_msg.2);
}

#[test]
fn call_test_analyze_define_messages_with_template_literal() {
    let call = call("defineMessages", vec![obj(vec![kv("hello", tpl(&["hello world"], 0))])]);
    let state = create_test_state();
    let result = analyze_define_messages(&call, &state);
    assert_eq!(result.len(), 1);
    let hello_msg = &result[0];
    assert_eq!(hello_msg.0, "hello");
    assert!(hello_msg.1.id.contains("hello"));
    assert!(hello_msg.1.default_message.is_some());
    assert!(!hello_msg.1.default_message.as_ref().unwrap().is_empty());
}

#[test]
fn call_test_analyze_define_messages_with_non_evaluatable_template_literal() {
    let call = call("defineMessages", vec![obj(vec![kv("hello", tpl(&["hello ", ""], 1))])]);
    let state = create_test_state();
    let result = analyze_define_messages(&call, &state);
    assert_eq!(result.len(), 0);
}

#[test]
fn call_test_analyze_format_message() {
    let call = call("formatMessage", vec![obj(vec![kv("defaultMessage", str_expr("Hello World"))])]);
    let state = create_test_state();
    let result = analyze_format_message(&call, &state);
    assert!(result.is_some());
    let (transformed, need_id_insert) = result.unwrap();
    assert!(!transformed.id.is_empty());
    assert_eq!(transformed.default_message, Some("Hello World".to_string()));
    assert!(need_id_insert);
}

#[test]
fn jsx_test_analyze_jsx_element_with_default_message() {
    let element = jsx("FormattedMessage", vec![attr_str("defaultMessage", "Hello World")]);
    let state = create_test_state();
    let result = analyze_jsx_element(&element, &state);
    assert!(result.is_some());
    let (transformed, needs_insertion) = result.unwrap();
    assert!(!transformed.id.is_empty());
    assert_eq!(transformed.default_message.unwrap(), "Hello World");
    assert!(needs_insertion);
}

#[test]
fn jsx_test_analyze_jsx_element_with_existing_id() {
    let element = jsx("FormattedMessage", vec![attr_str("id", "my-id"), attr_str("defaultMessage", "Hello")]);
    let state = create_test_state();
    let result = analyze_jsx_element(&element, &state);
    assert!(result.is_some());
    let (transformed, needs_insertion) = result.unwrap();
    assert_eq!(transformed.id, "my-id");
    assert!(!needs_insertion);
}

#[test]
fn jsx_test_analyze_jsx_element_with_variable() {
    let element = jsx("FormattedMessage", vec![attr_expr("defaultMessage", JsExpr::Ident(ident("message")))]);
    let state = create_test_state();
    let result = analyze_jsx_element(&element, &state);
    assert!(result.is_none());
}

#[test]
fn jsx_test_analyze_jsx_element_with_jsx_expr() {
    let element = jsx("FormattedMessage", vec![attr_expr("defaultMessage", str_expr("message"))]);
    let state = create_test_state();
    let result = analyze_jsx_element(&element, &state);
    assert!(result.is_some());
    let (transformed, needs_insertion) = result.unwrap();
    assert!(transformed.id.contains(hash_string("message", "murmur3").as_str()));
    assert!(needs_insertion);
}

#[test]
fn jsx_test_analyze_jsx_element_with_string_literals() {
    let element = jsx("FormattedMessage", vec![attr_expr("defaultMessage", tpl(&["message"], 0))]);
    let state = create_test_state();
    let result = analyze_jsx_element(&element, &state);
    assert!(result.is_some());
    let (transformed, needs_insertion) = result.unwrap();
    assert!(transformed.id.contains(hash_string("message", "murmur3").as_str()));
    assert!(needs_insertion);
}

#[test]
fn ast_analysis_test_analyze_jsx_element_with_default_message() {
    let element = jsx("FormattedMessage", vec![attr_str("defaultMessage", "Hello World")]);
    let state = create_test_state();
    let result = ast_analysis::analyze_jsx_element(&element, &state);
    assert!(result.is_some());
    let (transformed, needs_insertion) = result.unwrap();
    assert!(!transformed.id.is_empty());
    assert_eq!(transformed.default_message.unwrap(), "Hello World");
    assert!(needs_insertion);
}

#[test]
fn ast_analysis_test_analyze_jsx_element_with_existing_id() {
    let element = jsx("FormattedMessage", vec![attr_str("id", "my-id"), attr_str("defaultMessage", "Hello")]);
    let state = create_test_state();
    let result = ast_analysis::analyze_jsx_element(&element, &state);
    assert!(result.is_some());
    let (transformed, needs_insertion) = result.unwrap();
    assert_eq!(transformed.id, "my-id");
    assert!(!needs_insertion);
}

#[test]
fn ast_analysis_test_analyze_jsx_element_with_variable() {
    let element = jsx("FormattedMessage", vec![attr_expr("defaultMessage", JsExpr::Ident(ident("message")))]);
    let state = create_test_state();
    assert!(ast_analysis::analyze_jsx_element(&element, &state).is_none());
}

#[test]
fn ast_analysis_test_analyze_jsx_element_with_jsx_expr() {
    let element = jsx("FormattedMessage", vec![attr_expr("defaultMessage", str_expr("message"))]);
    let state = create_test_state();
    let (transformed, needs_insertion) = ast_analysis::analyze_jsx_element(&element, &state).unwrap();
    assert!(transformed.id.contains(murmur32_hash("message").as_str()));
    assert!(needs_insertion);
}

#[test]
fn ast_analysis_test_analyze_jsx_element_with_string_literals() {
    let element = jsx("FormattedMessage", vec![attr_expr("defaultMessage", tpl(&["message"], 0))]);
    let state = create_test_state();
    let (transformed, needs_insertion) = ast_analysis::analyze_jsx_element(&element, &state).unwrap();
    assert!(transformed.id.contains(murmur32_hash("message").as_str()));
    assert!(needs_insertion);
}

#[test]
fn ast_analysis_test_analyze_define_messages_with_strings() {
    let call = two_strings_call();
    let state = create_test_state();
    let result = ast_analysis::analyze_define_messages(&call, &state);
    assert_eq!(result.len(), 2);
    assert_eq!(result[0].0, "hello");
    assert_eq!(result[1].0, "goodbye");
    assert_eq!(result[0].1.default_message, Some("Hello World".to_string()));
    assert_eq!(result[1].1.default_message, Some("Goodbye".to_string()));
    assert!(!result[0].1.id.is_empty());
    assert!(!result[1].1.id.is_empty());
    assert!(result[0].2);
    assert!(result[1].2);
}

#[test]
fn ast_analysis_test_analyze_define_messages_with_objects() {
    let call = object_call();
    let state = create_test_state();
    let result = ast_analysis::analyze_define_messages(&call, &state);
    assert_eq!(result.len(), 1);
    assert_eq!(result[0].0, "hello");
    assert_eq!(result[0].1.default_message, Some("Hello World".to_string()));
    assert_eq!(result[0].1.description, Some("A greeting".to_string()));
    assert!(result[0].2);
}

#[test]
fn ast_analysis_test_analyze_define_messages_with_template_literal() {
    let call = call("defineMessages", vec![obj(vec![kv("hello", tpl(&["hello world"], 0))])]);
    let state = create_test_state();
    let result = ast_analysis::analyze_define_messages(&call, &state);
    assert_eq!(result.len(), 1);
    assert_eq!(result[0].0, "hello");
    assert!(result[0].1.id.contains("hello"));
    assert!(result[0].1.default_message.is_some());
    assert!(!result[0].1.default_message.as_ref().unwrap().is_empty());
}

#[test]
fn ast_analysis_test_analyze_define_messages_with_non_evaluatable_template_literal() {
    let call = call("defineMessages", vec![obj(vec![kv("hello", tpl(&["hello ", ""], 1))])]);
    let state = create_test_state();
    assert_eq!(ast_analysis::analyze_define_messages(&call, &state).len(), 0);
}

#[test]
fn ast_analysis_test_analyze_format_message() {
    let call = call("formatMessage", vec![obj(vec![kv("defaultMessage", str_expr("Hello World"))])]);
    let state = create_test_state();
    let (transformed, need_id_insert) = ast_analysis::analyze_format_message(&call, &state).unwrap();
    assert!(!transformed.id.is_empty());
    assert_eq!(transformed.default_message, Some("Hello World".to_string()));
    assert!(need_id_insert);
}

fn plain_state() -> CoreState {
    CoreState::new(
        "src/App.js".to_string(),
        CoreOptions::default(),
        PathEnv { cwd: "/repo".to_string(), project_root: Some("/repo".to_string()) },
    )
}

#[test]
fn generated_ids_have_exact_values() {
    let state = plain_state();
    // A key-based ID: the path part and the key.
    let result = analyze_define_messages(&two_strings_call(), &state);
    assert_eq!(result[0].1.id, "src.App.hello");
    // A descriptor's ID: the path part and the hash of its default message.
    let c = call("formatMessage", vec![obj(vec![kv("defaultMessage", str_expr("hello"))])]);
    let (t, insert) = analyze_format_message(&c, &state).unwrap();
    assert_eq!(t.id, "src.App.JIv6Rw==");
    assert!(insert);
    let (t, _) = ast_analysis::analyze_format_message(&c, &state).unwrap();
    assert_eq!(t.id, "src.App.613153351");
    // A description is hashed onto a key-based ID.
    let call2 = call(
        "defineMessages",
        vec![obj(vec![kv("hello", obj(vec![kv("defaultMessage", str_expr("Hi")), kv("description", str_expr("hello"))]))])],
    );
    let result = analyze_define_messages(&call2, &state);
    assert_eq!(result[0].1.id, "src.App.hello.JIv6Rw==");
}

#[test]
fn descriptors_without_a_message_or_with_computed_keys_are_skipped() {
    let state = plain_state();
    let c = call("formatMessage", vec![obj(vec![kv("description", str_expr("only"))])]);
    assert!(analyze_format_message(&c, &state).is_none());
    let computed = JsPropOrSpread::Prop(Box::new(JsProp::KeyValue(JsKeyValueProp {
        key: JsPropName::Other(7),
        value: Box::new(str_expr("x")),
    })));
    let c = call("formatMessage", vec![obj(vec![kv("defaultMessage", str_expr("hello")), computed])]);
    assert!(analyze_format_message(&c, &state).is_none());
    let c = call("formatMessage", vec![JsExpr::Ident(ident("messages"))]);
    assert!(analyze_format_message(&c, &state).is_none());
}

#[test]
fn later_fields_win() {
    let state = plain_state();
    let c = call(
        "formatMessage",
        vec![obj(vec![kv("defaultMessage", str_expr("first")), kv("defaultMessage", str_expr("second"))])],
    );
    let (t, _) = analyze_format_message(&c, &state).unwrap();
    assert_eq!(t.default_message, Some("second".to_string()));
}

fn import_of(names: &[(&str, Option<&str>)], src: &str) -> JsImportDecl {
    JsImportDecl {
        src: s(src),
        specifiers: names
            .iter()
            .map(|(local, imported)| {
                JsImportSpecifier::Named(JsImportNamedSpecifier {
                    local: ident(local),
                    imported: imported.map(|i| JsModuleExportName::Ident(ident(i))),
                })
            })
            .collect(),
    }
}

#[test]
fn calls_and_components_are_recognized_through_imports_and_aliases() {
    let state = plain_state();
    let mut iv = ImportVisitor::new(&state);
    iv.visit_import_decl(&import_of(&[("dm", Some("defineMessages")), ("FM", Some("FormattedMessage"))], "react-intl"));
    iv.visit_import_decl(&import_of(&[("formatMessage", None)], "other-lib"));
    assert!(is_define_messages_call(&iv, &call("dm", vec![])));
    assert!(is_define_messages_call(&iv, &call("defineMessages", vec![])));
    assert!(!is_define_messages_call(&iv, &call("FM", vec![])));
    assert!(!is_format_message_call(&iv, &call("formatMessage", vec![])));
    let member = JsCallExpr {
        span: JsSpan { lo: 0, hi: 0 },
        callee: JsCallee::Expr(Box::new(JsExpr::Member(JsMemberExpr { obj: 1, prop: JsMemberProp::Ident(ident("formatMessage")) }))),
        args: vec![],
    };
    assert!(is_format_message_call(&iv, &member));
    assert!(is_react_intl_component(&iv, &ident("FM")));
    assert!(is_react_intl_component(&iv, &ident("FormattedMessage")));
    assert!(!is_react_intl_component(&iv, &ident("dm")));
    assert!(!is_react_intl_component(&iv, &ident("FormattedHTMLMessage")));
}

use react_intl_auto::ast_import::ImportVisitor;
use react_intl_auto::auto_visitors;
use react_intl_auto::names::{AliasMap, NameSet};
use react_intl_auto::plugin_types::{IncludeExportName, PluginOptions, PluginState};
use react_intl_auto::plugin_visitors::{CallExpressionVisitor, JSXVisitor, TransformVisitor};
use react_intl_auto::simple_transform::{PluginConfig, ReactIntlAutoTransform};
use react_intl_auto::swc_visitors;
use react_intl_auto::syntax::{JsSpan, 
    JsCallExpr, JsCallee, JsExpr, JsExprOrSpread, JsIdent, JsImportDecl, JsImportNamedSpecifier, JsImportSpecifier, JsxAttr, JsxAttrName,
    JsxAttrOrSpread, JsxAttrValue, JsxElement, JsxElementName, JsxOpeningElement, JsKeyValueProp, JsLit, JsModuleExportName,
    JsObjectLit, JsPat, JsProp, JsPropName, JsPropOrSpread, JsStr, JsVarDeclarator,
};
use react_intl_auto::types::{CoreOptions, CoreState, PathEnv};

fn s(v: &str) -> JsStr {
    JsStr { span: JsSpan { lo: 0, hi: 0 }, value: v.to_string() }
}

fn ident(v: &str) -> JsIdent {
    JsIdent { span: JsSpan { lo: 0, hi: 0 }, sym: v.to_string() }
}

fn str_expr(v: &str) -> JsExpr {
    JsExpr::Lit(JsLit::Str(s(v)))
}

fn kv(key: &str, value: JsExpr) -> JsPropOrSpread {
    JsPropOrSpread::Prop(Box::new(JsProp::KeyValue(JsKeyValueProp { key: JsPropName::Ident(ident(key)), value: Box::new(value) })))
}

fn obj(props: Vec<JsPropOrSpread>) -> JsExpr {
    JsExpr::Object(JsObjectLit { span: JsSpan { lo: 0, hi: 0 }, props })
}

fn call(name: &str, args: Vec<JsExpr>) -> JsCallExpr {
    JsCallExpr {
        span: JsSpan { lo: 0, hi: 0 },
        callee: JsCallee::Expr(Box::new(JsExpr::Ident(ident(name)))),
        args: args.into_iter().map(|e| JsExprOrSpread { spread: false, expr: Box::new(e) }).collect(),
    }
}

fn attr_str(name: &str, v: &str) -> JsxAttrOrSpread {
    JsxAttrOrSpread::JSXAttr(JsxAttr { span: JsSpan { lo: 0, hi: 0 }, name: JsxAttrName::Ident(ident(name)), value: Some(JsxAttrValue::Str(s(v))) })
}

fn jsx(name: &str, attrs: Vec<JsxAttrOrSpread>) -> JsxElement {
    JsxElement { span: JsSpan { lo: 0, hi: 0 }, opening: JsxOpeningElement { name: JsxElementName::Ident(ident(name)), attrs } }
}

fn attr_value(a: &JsxAttrOrSpread) -> (String, String) {
    match a {
        JsxAttrOrSpread::JSXAttr(JsxAttr { name: JsxAttrName::Ident(n), value: Some(JsxAttrValue::Str(v)), .. }) => {
            (n.sym.clone(), v.value.clone())
        }
        _ => panic!("expected a string attribute"),
    }
}

fn entry(p: &JsPropOrSpread) -> (String, &JsExpr) {
    match p {
        JsPropOrSpread::Prop(b) => match &**b {
            JsProp::KeyValue(kv) => {
                let k = match &kv.key {
                    JsPropName::Ident(i) => i.sym.clone(),
                    JsPropName::Str(s) => s.value.clone(),
                    JsPropName::Num(n) => n.clone(),
                    JsPropName::Other(_) => "?".to_string(),
                };
                (k, &*kv.value)
            }
            _ => panic!("expected a key-value property"),
        },
        _ => panic!("expected a property"),
    }
}

fn string_of(e: &JsExpr) -> String {
    match e {
        JsExpr::Lit(JsLit::Str(s)) => s.value.clone(),
        _ => panic!("expected a string"),
    }
}

fn object_of(e: &JsExpr) -> &JsObjectLit {
    match e {
        JsExpr::Object(o) => o,
        _ => panic!("expected an object"),
    }
}

fn first_arg(c: &JsCallExpr) -> &JsExpr {
    &c.args[0].expr
}

fn state() -> CoreState {
    CoreState::new(
        "src/App.js".to_string(),
        CoreOptions::default(),
        PathEnv { cwd: "/repo".to_string(), project_root: Some("/repo".to_string()) },
    )
}

fn react_intl_import() -> JsImportDecl {
    JsImportDecl {
        src: s("react-intl"),
        specifiers: vec![
            JsImportSpecifier::Named(JsImportNamedSpecifier { local: ident("FormattedMessage"), imported: None }),
            JsImportSpecifier::Named(JsImportNamedSpecifier { local: ident("defineMessages"), imported: None }),
            JsImportSpecifier::Named(JsImportNamedSpecifier {
                local: ident("fm"),
                imported: Some(JsModuleExportName::Ident(ident("formatMessage"))),
            }),
        ],
    }
}

#[test]
fn jsx_visitor_inserts_the_id_before_the_default_message() {
    let st = state();
    let mut iv = ImportVisitor::new(&st);
    iv.visit_import_decl(&react_intl_import());
    let v = JSXVisitor::new(&st, &iv);
    let mut el = jsx("FormattedMessage", vec![attr_str("values", "v"), attr_str("defaultMessage", "hello")]);
    v.visit_mut_jsx_element(&mut el);
    assert_eq!(el.opening.attrs.len(), 3);
    assert_eq!(attr_value(&el.opening.attrs[0]), ("values".to_string(), "v".to_string()));
    assert_eq!(attr_value(&el.opening.attrs[1]), ("id".to_string(), "src.App.JIv6Rw==".to_string()));
    assert_eq!(attr_value(&el.opening.attrs[2]), ("defaultMessage".to_string(), "hello".to_string()));
    // A second pass finds the ID and changes nothing.
    v.visit_mut_jsx_element(&mut el);
    assert_eq!(el.opening.attrs.len(), 3);
    // Components that were not imported are left alone.
    let mut other = jsx("FormattedHTMLMessage", vec![attr_str("defaultMessage", "hello")]);
    v.visit_mut_jsx_element(&mut other);
    assert_eq!(other.opening.attrs.len(), 1);
}

#[test]
fn call_visitor_adds_ids_to_format_message_descriptors() {
    let st = state();
    let mut iv = ImportVisitor::new(&st);
    iv.visit_import_decl(&react_intl_import());
    let v = CallExpressionVisitor::new(&st, &iv);
    let mut c = call("fm", vec![obj(vec![kv("defaultMessage", str_expr("hello"))])]);
    v.visit_mut_call_expr(&mut c);
    let o = object_of(first_arg(&c));
    assert_eq!(o.props.len(), 2);
    let (k, val) = entry(&o.props[1]);
    assert_eq!(k, "id");
    assert_eq!(string_of(val), "src.App.JIv6Rw==");
    // The descriptor now carries its ID, so a second pass changes nothing.
    v.visit_mut_call_expr(&mut c);
    assert_eq!(object_of(first_arg(&c)).props.len(), 2);
}

#[test]
fn call_visitor_rewrites_define_messages() {
    let st = state();
    let mut iv = ImportVisitor::new(&st);
    iv.visit_import_decl(&react_intl_import());
    let mut v = CallExpressionVisitor::new(&st, &iv);
    let mut c = call(
        "defineMessages",
        vec![obj(vec![kv("hello", str_expr("Hello")), kv("bye", obj(vec![kv("defaultMessage", str_expr("Bye"))])), kv("n", JsExpr::Other(3))])],
    );
    v.visit_mut_call_expr(&mut c);
    let o = object_of(first_arg(&c));
    assert_eq!(o.props.len(), 3);
    let (k, hello) = entry(&o.props[0]);
    assert_eq!(k, "hello");
    let hello = object_of(hello);
    assert_eq!(entry(&hello.props[0]).0, "id");
    assert_eq!(string_of(entry(&hello.props[0]).1), "src.App.hello");
    assert_eq!(entry(&hello.props[1]).0, "defaultMessage");
    assert_eq!(string_of(entry(&hello.props[1]).1), "Hello");
    let bye = object_of(entry(&o.props[1]).1);
    assert_eq!(bye.props.len(), 2);
    assert_eq!(string_of(entry(&bye.props[1]).1), "src.App.bye");
    assert!(matches!(entry(&o.props[2]).1, JsExpr::Other(3)));

    // A variable's object is copied into the call and rewritten there.
    v.visit_mut_var_declarator(JsVarDeclarator {
        name: JsPat::Ident(ident("msgs")),
        init: Some(Box::new(obj(vec![kv("x", str_expr("X"))]))),
    });
    let mut c = call("defineMessages", vec![JsExpr::Ident(ident("msgs"))]);
    v.visit_mut_call_expr(&mut c);
    let o = object_of(first_arg(&c));
    let x = object_of(entry(&o.props[0]).1);
    assert_eq!(string_of(entry(&x.props[0]).1), "src.App.x");
}

#[test]
fn transform_visitor_keeps_its_state() {
    let t = TransformVisitor::new(state());
    assert_eq!(t.state.filename, "src/App.js");
}

fn plugin_state(opts: PluginOptions) -> PluginState {
    PluginState::new("src/components/App.js".to_string(), opts, PathEnv { cwd: "/p".to_string(), project_root: None })
}

#[test]
fn auto_jsx_uses_the_hash_or_the_key() {
    let v = auto_visitors::JSXVisitor { state: plugin_state(PluginOptions::default()), imported_names: NameSet::new(), alias_map: AliasMap::new() };
    let mut el = jsx("FormattedMessage", vec![attr_str("defaultMessage", "hello"), attr_str("key", "k")]);
    v.visit_mut_jsx_element(&mut el);
    assert_eq!(attr_value(&el.opening.attrs[0]), ("id".to_string(), "src.components.613153351".to_string()));

    let mut opts = PluginOptions::default();
    opts.use_key = true;
    let v = auto_visitors::JSXVisitor { state: plugin_state(opts), imported_names: NameSet::new(), alias_map: AliasMap::new() };
    let mut el = jsx("FormattedMessage", vec![attr_str("defaultMessage", "hello"), attr_str("key", "k")]);
    v.visit_mut_jsx_element(&mut el);
    assert_eq!(attr_value(&el.opening.attrs[0]), ("id".to_string(), "src.components.k".to_string()));

    let mut with_id = jsx("FormattedMessage", vec![attr_str("id", "x"), attr_str("defaultMessage", "hello")]);
    v.visit_mut_jsx_element(&mut with_id);
    assert_eq!(with_id.opening.attrs.len(), 2);
}

#[test]
fn auto_format_message_uses_printed_values() {
    let mut names = NameSet::new();
    names.insert("formatMessage".to_string());
    let v = auto_visitors::CallExpressionVisitor {
        state: plugin_state(PluginOptions::default()),
        imported_names: names,
        variable_declarations: Vec::new(),
    };
    let mut c = call("formatMessage", vec![obj(vec![kv("defaultMessage", JsExpr::Ident(ident("msg")))])]);
    let texts = vec!["hello".to_string()];
    v.visit_mut_call_expr(&mut c, &texts);
    let o = object_of(first_arg(&c));
    assert_eq!(string_of(entry(&o.props[1]).1), "src.components.613153351");
    v.visit_mut_call_expr(&mut c, &vec![String::new(), String::new()]);
    assert_eq!(object_of(first_arg(&c)).props.len(), 2);
}

#[test]
fn auto_define_messages_use_keys_and_the_export_name() {
    let mut opts = PluginOptions::default();
    opts.include_export_name = Some(IncludeExportName::Boolean(true));
    let v = auto_visitors::CallExpressionVisitor { state: plugin_state(opts), imported_names: NameSet::new(), variable_declarations: Vec::new() };
    let num_key = JsPropOrSpread::Prop(Box::new(JsProp::KeyValue(JsKeyValueProp { key: JsPropName::Num("1".to_string()), value: Box::new(str_expr("One")) })));
    let mut c = call("defineMessages", vec![obj(vec![kv("hello", str_expr("Hello")), num_key, kv("done", obj(vec![kv("id", str_expr("kept"))]))])]);
    v.visit_mut_call_expr(&mut c, &vec![]);
    let o = object_of(first_arg(&c));
    let hello = object_of(entry(&o.props[0]).1);
    assert_eq!(string_of(entry(&hello.props[0]).1), "src.components.messages.hello");
    let one = object_of(entry(&o.props[1]).1);
    assert_eq!(string_of(entry(&one.props[0]).1), "src.components.messages.1");
    let done = object_of(entry(&o.props[2]).1);
    assert_eq!(done.props.len(), 1);
}

#[test]
fn auto_imports_match_by_substring() {
    let mut iv = auto_visitors::ImportVisitor { imported_names: NameSet::new(), module_source_name: "react-intl".to_string(), alias_map: AliasMap::new() };
    iv.visit_mut_import_decl(&JsImportDecl { src: s("@scope/react-intl-extra"), specifiers: vec![JsImportSpecifier::Default(ident("intl"))] });
    assert!(iv.imported_names.contains("intl"));
    assert!(iv.imported_names.contains("default"));
    let mut iv2 = swc_visitors::ImportVisitor { imported_names: NameSet::new(), module_source_name: "react-intl".to_string(), alias_map: AliasMap::new() };
    iv2.visit_mut_import_decl(&JsImportDecl { src: s("@scope/react-intl-extra"), specifiers: vec![JsImportSpecifier::Default(ident("intl"))] });
    assert!(!iv2.imported_names.contains("intl"));
}

#[test]
fn swc_visitors_use_decimal_hashes() {
    let mut names = NameSet::new();
    names.insert("FormattedMessage".to_string());
    names.insert("defineMessages".to_string());
    let v = swc_visitors::JSXVisitor { state: state(), imported_names: names, alias_map: AliasMap::new() };
    let mut el = jsx("FormattedMessage", vec![attr_str("defaultMessage", "hello")]);
    v.visit_mut_jsx_element(&mut el);
    assert_eq!(attr_value(&el.opening.attrs[0]), ("id".to_string(), "src.App.613153351".to_string()));

    let mut names = NameSet::new();
    names.insert("defineMessages".to_string());
    let cv = swc_visitors::CallExpressionVisitor { state: state(), imported_names: names, alias_map: AliasMap::new(), variable_declarations: Vec::new() };
    let mut c = call("defineMessages", vec![obj(vec![kv("hello", str_expr("Hello"))])]);
    cv.visit_mut_call_expr(&mut c);
    let hello = object_of(entry(&object_of(first_arg(&c)).props[0]).1);
    assert_eq!(string_of(entry(&hello.props[0]).1), "src.App.hello");
    // An object that already has a top-level id is left alone.
    let mut c = call("defineMessages", vec![obj(vec![kv("id", str_expr("x")), kv("hello", str_expr("Hello"))])]);
    cv.visit_mut_call_expr(&mut c);
    assert!(matches!(entry(&object_of(first_arg(&c)).props[1]).1, JsExpr::Lit(_)));
}

#[test]
fn simple_transform_prefixes_and_ids() {
    let t = ReactIntlAutoTransform { config: PluginConfig::default(), filename: "src/components/App.js".to_string() };
    assert_eq!(t.get_prefix(), "src/components");
    assert_eq!(t.get_prefix_with_suffix("x"), "src/components.x");
    let mut el = jsx("FormattedMessage", vec![attr_str("defaultMessage", "hello"), attr_str("defaultMessage", "hello")]);
    t.visit_mut_jsx_element(&mut el);
    assert_eq!(el.opening.attrs.len(), 4);
    assert_eq!(attr_value(&el.opening.attrs[0]), ("id".to_string(), "src/components.613153351".to_string()));
    assert_eq!(attr_value(&el.opening.attrs[2]).0, "id");

    let mut c = call("defineMessages", vec![obj(vec![kv("hello", str_expr("Hello")), kv("x", obj(vec![kv("defaultMessage", str_expr("X"))]))])]);
    t.visit_mut_call_expr(&mut c);
    let o = object_of(first_arg(&c));
    let hello = object_of(entry(&o.props[0]).1);
    assert_eq!(string_of(entry(&hello.props[0]).1), "src/components.hello");
    let x = object_of(entry(&o.props[1]).1);
    assert_eq!(entry(&x.props[0]).0, "id");
    assert_eq!(x.props.len(), 2);

    let filebase = ReactIntlAutoTransform {
        config: PluginConfig { remove_prefix: Some("true".to_string()), filebase: true, separator: "_".to_string() },
        filename: "src/components/App.js".to_string(),
    };
    assert_eq!(filebase.get_prefix_with_suffix("x"), "x");
    let removed = ReactIntlAutoTransform {
        config: PluginConfig { remove_prefix: Some("src/".to_string()), filebase: false, separator: "_".to_string() },
        filename: "src/components/App.js".to_string(),
    };
    assert_eq!(removed.get_prefix_with_suffix("x"), "components_x");
}

use react_intl_auto::parse::visit_order_exec;
use react_intl_auto::syntax::{JsCallExpr, JsCallee, JsEvent, JsItem, JsPat, JsSpan, JsVarDeclarator};
use react_intl_auto::extractor::{
    dedupe_messages, detect_syntax, relative_to_cwd, to_extracted_message, ExtractedMessage, MessageExtractorVisitor, SyntaxKind,
};
use react_intl_auto::js_api::{JsExtractOptions, JsExtractResult, JsExtractedMessage};
use react_intl_auto::message_extractor;
use react_intl_auto::types::{CoreOptions, OutputMode, PathEnv, RemovePrefix, TransformedMessageData};

#[test]
fn test_detect_syntax_tsx() {
    match detect_syntax("src/components/App.tsx") {
        SyntaxKind::Typescript { tsx } => assert!(tsx),
        _ => panic!("Expected TypeScript syntax for .tsx file"),
    }
}

#[test]
fn test_detect_syntax_ts() {
    match detect_syntax("src/components/utils.ts") {
        SyntaxKind::Typescript { tsx } => assert!(!tsx),
        _ => panic!("Expected TypeScript syntax for .ts file"),
    }
}

#[test]
fn test_detect_syntax_mts() {
    match detect_syntax("src/components/utils.mts") {
        SyntaxKind::Typescript { tsx } => assert!(!tsx),
        _ => panic!("Expected TypeScript syntax for .mts file"),
    }
}

#[test]
fn test_detect_syntax_jsx() {
    match detect_syntax("src/components/App.jsx") {
        SyntaxKind::Es { jsx } => assert!(jsx),
        _ => panic!("Expected ES syntax for .jsx file"),
    }
}

#[test]
fn test_detect_syntax_js() {
    match detect_syntax("src/components/utils.js") {
        SyntaxKind::Es { jsx } => assert!(jsx),
        _ => panic!("Expected ES syntax for .js file"),
    }
}

#[test]
fn detect_syntax_edge_cases() {
    assert_eq!(detect_syntax(".ts"), SyntaxKind::Es { jsx: true });
    assert_eq!(detect_syntax("a/b.d.ts"), SyntaxKind::Typescript { tsx: false });
    assert_eq!(detect_syntax("Makefile"), SyntaxKind::Es { jsx: true });
}

#[test]
fn extractor_test_to_extracted_message() {
    let transformed = TransformedMessageData {
        id: "test.hello".to_string(),
        default_message: Some("Hello World".to_string()),
        description: Some("A greeting".to_string()),
    };
    let extracted = to_extracted_message(&transformed, "test.js", false, "/repo");
    assert_eq!(extracted.id, "test.hello");
    assert_eq!(extracted.default_message, Some("Hello World".to_string()));
    assert_eq!(extracted.description, Some("A greeting".to_string()));
    assert!(extracted.file.is_none());
}

#[test]
fn extractor_test_to_extracted_message_with_source_location() {
    let transformed = TransformedMessageData {
        id: "test.hello".to_string(),
        default_message: Some("Hello".to_string()),
        description: None,
    };
    let extracted = to_extracted_message(&transformed, "test.js", true, "/repo");
    assert!(extracted.file.is_some());
}

#[test]
fn source_locations_are_relative_to_the_working_directory() {
    assert_eq!(relative_to_cwd("/repo/src/App.js", "/repo"), "src/App.js");
    assert_eq!(relative_to_cwd("/other/App.js", "/repo"), "../other/App.js");
    assert_eq!(relative_to_cwd("src/App.js", "/repo"), "src/App.js");
}

fn message(id: &str) -> TransformedMessageData {
    TransformedMessageData { id: id.to_string(), default_message: Some("m".to_string()), description: None }
}

#[test]
fn extractor_result_reports_errors_or_messages() {
    let env = PathEnv { cwd: "/repo".to_string(), project_root: None };
    let mut opts = CoreOptions::default();
    opts.extract_source_location = true;
    let mut v = MessageExtractorVisitor::new("/repo/src/App.js".to_string(), opts.clone(), env.clone());
    v.record(vec![message("a")], vec![]);
    v.record(vec![message("b")], vec![]);
    let out = v.into_result().unwrap();
    assert_eq!(out.len(), 2);
    assert_eq!(out[0].id, "a");
    assert_eq!(out[1].id, "b");
    assert_eq!(out[1].file, Some("src/App.js".to_string()));

    let mut v = MessageExtractorVisitor::new("/repo/src/App.js".to_string(), opts, env);
    v.record(vec![message("a")], vec!["first".to_string()]);
    v.record(vec![], vec!["second".to_string()]);
    assert_eq!(v.into_result(), Err("first\nsecond".to_string()));
}

fn extracted(id: &str, dm: &str) -> ExtractedMessage {
    ExtractedMessage { id: id.to_string(), default_message: Some(dm.to_string()), description: None, file: None }
}

#[test]
fn duplicates_keep_the_first_occurrence() {
    let out = dedupe_messages(vec![extracted("a", "1"), extracted("b", "2"), extracted("a", "3"), extracted("c", "4"), extracted("b", "5")]);
    assert_eq!(out, vec![extracted("a", "1"), extracted("b", "2"), extracted("c", "4")]);
    assert!(dedupe_messages(vec![]).is_empty());
}

#[test]
fn js_options_take_defaults() {
    let opts = JsExtractOptions {
        remove_prefix: None,
        module_source_name: None,
        separator: None,
        relative_to: None,
        hash_id: None,
        hash_algorithm: None,
        extract_source_location: None,
        output_mode: None,
    };
    let core = opts.to_core_options();
    assert!(core.remove_prefix.is_none());
    assert_eq!(core.module_source_name, "react-intl");
    assert_eq!(core.separator, ".");
    assert!(!core.hash_id);
    assert_eq!(core.hash_algorithm, "murmur3");
    assert!(!core.extract_source_location);
    assert_eq!(core.output_mode, OutputMode::Aggregated);
}

#[test]
fn js_options_read_remove_prefix_and_output_mode() {
    let mut opts = JsExtractOptions {
        remove_prefix: Some("true".to_string()),
        module_source_name: Some("my-intl".to_string()),
        separator: Some("_".to_string()),
        relative_to: Some("src".to_string()),
        hash_id: Some(true),
        hash_algorithm: Some("base64".to_string()),
        extract_source_location: Some(true),
        output_mode: Some("perfile".to_string()),
    };
    let core = opts.to_core_options();
    assert_eq!(core.remove_prefix, Some(RemovePrefix::Boolean(true)));
    assert_eq!(core.module_source_name, "my-intl");
    assert_eq!(core.separator, "_");
    assert_eq!(core.relative_to, Some("src".to_string()));
    assert!(core.hash_id);
    assert_eq!(core.hash_algorithm, "base64");
    assert!(core.extract_source_location);
    assert_eq!(core.output_mode, OutputMode::PerFile);
    opts.remove_prefix = Some("false".to_string());
    assert_eq!(opts.to_core_options().remove_prefix, Some(RemovePrefix::Boolean(false)));
    opts.remove_prefix = Some("".to_string());
    assert_eq!(opts.to_core_options().remove_prefix, None);
    opts.remove_prefix = Some("src/".to_string());
    assert_eq!(opts.to_core_options().remove_prefix, Some(RemovePrefix::String("src/".to_string())));
    opts.output_mode = Some("other".to_string());
    assert_eq!(opts.to_core_options().output_mode, OutputMode::Aggregated);
}

#[test]
fn js_messages_have_a_default_message_string() {
    let js = JsExtractedMessage::from_message(ExtractedMessage {
        id: "x".to_string(),
        default_message: None,
        description: Some("d".to_string()),
        file: None,
    });
    assert_eq!(js.default_message, "");
    assert_eq!(js.description, Some("d".to_string()));
    let result = JsExtractResult { messages: vec![js], files_processed: 1 };
    assert_eq!(result.messages.len(), 1);
}

#[test]
fn test_extraction_options_default() {
    let opts = message_extractor::ExtractionOptions::default();
    assert!(!opts.hash_id);
    assert_eq!(opts.hash_algorithm, "murmur3");
    assert!(!opts.include_source_location);
    assert_eq!(opts.separator, ".");
}

#[test]
fn message_extractor_test_to_extracted_message() {
    let message_data = message_extractor::MessageData {
        id: None,
        default_message: Some("Hello World".to_string()),
        description: Some("A greeting".to_string()),
    };
    let transformed = TransformedMessageData {
        id: "test.hello".to_string(),
        default_message: Some("Hello World".to_string()),
        description: Some("A greeting".to_string()),
    };
    let opts = message_extractor::ExtractionOptions::default();
    let extracted = message_extractor::to_extracted_message(message_data, transformed, "test.js", &opts, Some(42));
    assert_eq!(extracted.id, "test.hello");
    assert_eq!(extracted.default_message, "Hello World");
    assert_eq!(extracted.description, Some("A greeting".to_string()));
    assert!(extracted.line.is_none());
    assert!(extracted.file.is_none());
}

#[test]
fn message_extractor_test_to_extracted_message_with_source_location() {
    let message_data = message_extractor::MessageData {
        id: None,
        default_message: Some("Hello".to_string()),
        description: None,
    };
    let transformed = TransformedMessageData {
        id: "test.hello".to_string(),
        default_message: Some("Hello".to_string()),
        description: None,
    };
    let opts = message_extractor::ExtractionOptions { include_source_location: true, ..Default::default() };
    let extracted = message_extractor::to_extracted_message(message_data, transformed, "test.js", &opts, Some(42));
    assert_eq!(extracted.line, Some(42));
    assert!(extracted.file.is_some());
}

fn repo_env() -> PathEnv {
    PathEnv { cwd: "/repo".to_string(), project_root: Some("/repo".to_string()) }
}

const DEFINE_EXAMPLE: &str = "import { defineMessages } from 'react-intl';\nexport default defineMessages({\n  hello: 'Hello World'\n});\n";

#[test]
fn core_extract_messages_finds_define_messages_entry() {
    let options = message_extractor::ExtractionOptions::default();
    let messages = message_extractor::extract_messages(DEFINE_EXAMPLE, "test.js", &options, repo_env());
    assert_eq!(messages.len(), 1);
    assert_eq!(messages[0].default_message, "Hello World");
    assert!(messages[0].id.ends_with("hello"));
    assert!(messages[0].file.is_none());
    assert!(messages[0].line.is_none());
}

#[test]
fn core_extract_messages_records_location_when_asked() {
    let mut options = message_extractor::ExtractionOptions::default();
    options.include_source_location = true;
    let messages = message_extractor::extract_messages(DEFINE_EXAMPLE, "test.js", &options, repo_env());
    assert_eq!(messages.len(), 1);
    assert_eq!(messages[0].file, Some("test.js".to_string()));
    assert!(messages[0].line.is_some());
}

#[test]
fn core_extract_messages_gives_nothing_for_unparsable_text() {
    let options = message_extractor::ExtractionOptions::default();
    let messages = message_extractor::extract_messages("import { from", "test.js", &options, repo_env());
    assert!(messages.is_empty());
}

#[test]
fn cli_extract_messages_finds_define_messages_entry() {
    let filename = "/repo/src/test.js".to_string();
    let result = react_intl_auto::extractor::extract_messages(DEFINE_EXAMPLE, &filename, &CoreOptions::default(), repo_env());
    let messages = result.unwrap();
    assert_eq!(messages.len(), 1);
    assert_eq!(messages[0].id, "src.test.hello");
    assert_eq!(messages[0].default_message, Some("Hello World".to_string()));
    assert!(messages[0].file.is_none());
}

#[test]
fn cli_extract_messages_elements_then_calls() {
    let code = "import { FormattedMessage, defineMessages } from 'react-intl';\n\
                const m = defineMessages({ a: 'A' });\n\
                export const X = () => <FormattedMessage defaultMessage=\"Hi\" id=\"given\" />;\n";
    let filename = "/repo/src/App.jsx".to_string();
    let messages = react_intl_auto::extractor::extract_messages(code, &filename, &CoreOptions::default(), repo_env()).unwrap();
    assert_eq!(messages.len(), 2);
    assert_eq!(messages[0].id, "given");
    assert_eq!(messages[0].default_message, Some("Hi".to_string()));
    assert_eq!(messages[1].id, "src.App.a");
}

#[test]
fn cli_extract_messages_ignores_other_modules() {
    let code = "import { defineMessages } from 'other-lib';\nexport default defineMessages({ a: 'A' });\n";
    let filename = "/repo/src/test.js".to_string();
    let messages = react_intl_auto::extractor::extract_messages(code, &filename, &CoreOptions::default(), repo_env()).unwrap();
    assert!(messages.is_empty());
}

#[test]
fn cli_extract_messages_reports_parse_errors() {
    let filename = "/repo/src/bad.js".to_string();
    let result = react_intl_auto::extractor::extract_messages("const = ;", &filename, &CoreOptions::default(), repo_env());
    match result {
        Err(e) => assert!(e.starts_with("Failed to parse /repo/src/bad.js: ")),
        Ok(_) => panic!("expected a parse error"),
    }
}

#[test]
fn visit_order_puts_declarators_first_and_calls_after_their_insides() {
    let call = |lo: u32| JsItem::Call(JsCallExpr {
        span: JsSpan { lo, hi: lo + 1 },
        callee: JsCallee::Other(0),
        args: Vec::new(),
    });
    let decl = JsItem::Declarator(JsVarDeclarator { name: JsPat::Other(0), init: None });
    // const x = f(g());  — the declarator holds call f, which holds call g.
    let events = vec![
        JsEvent::Enter(decl),
        JsEvent::Enter(call(1)),
        JsEvent::Enter(call(2)),
        JsEvent::Leave,
        JsEvent::Leave,
        JsEvent::Leave,
    ];
    let order = visit_order_exec(events);
    assert_eq!(order.len(), 3);
    assert!(matches!(order[0], JsItem::Declarator(_)));
    match (&order[1], &order[2]) {
        (JsItem::Call(inner), JsItem::Call(outer)) => {
            assert_eq!(inner.span.lo, 2);
            assert_eq!(outer.span.lo, 1);
        }
        _ => panic!("expected two calls"),
    }
}

use react_intl_auto::gen_id::{
    generate_message_id, try_generate_message_id, GenIdFromDescriptorPayload, GenIdFromKeyPayload, GenIdPayload,
};
use react_intl_auto::gen_path::{add_prefix, dot_path, dot_path_replace};
use react_intl_auto::plugin_types::{IncludeExportName, PluginOptions, PluginState, RemovePrefix as PluginRemovePrefix};
use react_intl_auto::plugin_utils::get_prefix;
use react_intl_auto::types::{CoreOptions, CoreState, OutputMode, PathEnv, RemovePrefix};

const CWD: &str = "/repo/crates/react-intl-core";

fn env() -> PathEnv {
    PathEnv { cwd: CWD.to_string(), project_root: Some("/repo".to_string()) }
}

fn create_test_state(filename: &str, opts: CoreOptions) -> CoreState {
    CoreState::new(filename.to_string(), opts, env())
}

fn create_default_options() -> CoreOptions {
    CoreOptions {
        module_source_name: "react-intl".to_string(),
        separator: ".".to_string(),
        remove_prefix: None,
        relative_to: None,
        hash_id: false,
        hash_algorithm: "murmur3".to_string(),
        extract_source_location: false,
        output_mode: OutputMode::Aggregated,
    }
}

#[test]
fn test_dot_path() {
    assert_eq!(dot_path("src/components/App", "."), "src.components.App");
}

#[test]
fn test_dot_path_replace() {
    assert_eq!(dot_path_replace("src.components.App", "src", "."), "components.App");
}

#[test]
fn test_add_prefix_remove_prefix_true() {
    let mut opts = create_default_options();
    opts.remove_prefix = Some(RemovePrefix::Boolean(true));
    let state = create_test_state("src/components/App.js", opts);
    assert_eq!(add_prefix(&state, "hello"), "hello");
}

#[test]
fn test_add_prefix_custom_separator() {
    let mut opts = create_default_options();
    opts.separator = "_".to_string();
    let state = create_test_state("src/components/App.js", opts);
    assert_eq!(add_prefix(&state, "hello"), "crates_react-intl-core_src_components_App_hello");
}

#[test]
fn test_add_prefix_relative_filename() {
    let opts = create_default_options();
    let state = create_test_state("src/components/App.js", opts);
    assert_eq!(add_prefix(&state, "hello"), "crates.react-intl-core.src.components.App.hello");
}

#[test]
fn test_add_prefix_absolute_filename() {
    let opts = create_default_options();
    let test_file = format!("{}/src/components/App.js", CWD);
    let state = create_test_state(&test_file, opts);
    assert_eq!(add_prefix(&state, "hello"), "crates.react-intl-core.src.components.App.hello");
}

#[test]
fn test_add_prefix_relative_to_src() {
    let mut opts = create_default_options();
    opts.relative_to = Some("src".to_string());
    let state = create_test_state("src/components/App.js", opts);
    assert_eq!(add_prefix(&state, "hello"), "components.App.hello");
}

#[test]
fn test_add_prefix_absolute_filename_relative_to_src() {
    let mut opts = create_default_options();
    opts.relative_to = Some("./src".to_string());
    let test_file = format!("{}/src/components/App.js", CWD);
    let state = create_test_state(&test_file, opts);
    assert_eq!(add_prefix(&state, "hello"), "components.App.hello");
}

#[test]
fn test_add_prefix_relative_filename_with_relative_relative_to() {
    let mut opts = create_default_options();
    opts.relative_to = Some("src".to_string());
    let state = create_test_state("src/components/App.js", opts);
    assert_eq!(add_prefix(&state, "hello"), "components.App.hello");
}

#[test]
fn test_add_prefix_absolute_filename_with_absolute_relative_to() {
    let mut opts = create_default_options();
    opts.relative_to = Some(format!("{}/src", CWD));
    let test_file = format!("{}/src/components/App.js", CWD);
    let state = create_test_state(&test_file, opts);
    assert_eq!(add_prefix(&state, "hello"), "components.App.hello");
}

#[test]
fn test_add_prefix_consistency_absolute_vs_relative() {
    let opts = create_default_options();
    let absolute_path = format!("{}/src/components/App.js", CWD);
    let state_absolute = create_test_state(&absolute_path, opts.clone());
    let state_relative = create_test_state("src/components/App.js", opts);
    let result_absolute = add_prefix(&state_absolute, "hello");
    let result_relative = add_prefix(&state_relative, "hello");
    assert_eq!(
        result_absolute, result_relative,
        "Absolute and relative paths should produce same ID. Absolute: {}, Relative: {}",
        result_absolute, result_relative
    );
}

#[test]
fn test_add_prefix_relative_filename_with_dot_slash_relative_to() {
    let mut opts = create_default_options();
    opts.relative_to = Some("./src".to_string());
    let state = create_test_state("src/components/App.js", opts);
    assert_eq!(add_prefix(&state, "hello"), "components.App.hello");
}

#[test]
fn test_add_prefix_with_hash_id_relative_paths() {
    let mut opts = create_default_options();
    opts.hash_id = true;
    opts.hash_algorithm = "murmur3".to_string();
    let absolute_path = format!("{}/src/components/App.js", CWD);
    let state_absolute = create_test_state(&absolute_path, opts.clone());
    let state_relative = create_test_state("src/components/App.js", opts);
    let result_absolute = add_prefix(&state_absolute, "hello");
    let result_relative = add_prefix(&state_relative, "hello");
    assert_eq!(
        result_absolute, result_relative,
        "Hash IDs should be identical for absolute and relative paths. Absolute: {}, Relative: {}",
        result_absolute, result_relative
    );
}

#[test]
fn add_prefix_without_project_root_uses_the_working_directory() {
    let state = CoreState::new(
        "src/components/App.js".to_string(),
        create_default_options(),
        PathEnv { cwd: CWD.to_string(), project_root: None },
    );
    assert_eq!(add_prefix(&state, "hello"), "src.components.App.hello");
}

#[test]
fn add_prefix_outside_relative_to_falls_back_to_the_project_root() {
    let mut opts = create_default_options();
    opts.relative_to = Some("lib".to_string());
    let state = create_test_state("src/components/App.js", opts);
    assert_eq!(add_prefix(&state, "hello"), "crates.react-intl-core.src.components.App.hello");
}

#[test]
fn add_prefix_with_string_and_regex_remove_prefix() {
    let mut opts = create_default_options();
    opts.relative_to = Some("src".to_string());
    opts.remove_prefix = Some(RemovePrefix::String("components/".to_string()));
    let state = create_test_state("src/components/App.js", opts);
    assert_eq!(add_prefix(&state, "hello"), "App.hello");

    let mut opts = create_default_options();
    opts.remove_prefix = Some(RemovePrefix::String("^crates/.*/src".to_string()));
    let state = create_test_state("src/components/App.js", opts);
    assert_eq!(add_prefix(&state, "hello"), "components.App.hello");

    let mut opts = create_default_options();
    opts.remove_prefix = Some(RemovePrefix::String(".*".to_string()));
    let state = create_test_state("src/components/App.js", opts);
    assert_eq!(add_prefix(&state, "hello"), "hello");

    let mut opts = create_default_options();
    opts.remove_prefix = Some(RemovePrefix::String("(".to_string()));
    let state = create_test_state("src/components/App.js", opts);
    assert_eq!(add_prefix(&state, "hello"), "hello");
}

fn plugin_options() -> PluginOptions {
    PluginOptions {
        module_source_name: "react-intl".to_string(),
        separator: ".".to_string(),
        filebase: false,
        remove_prefix: None,
        include_export_name: None,
        use_key: false,
        extract_comments: false,
        relative_to: None,
    }
}

fn plugin_state(filename: &str, opts: PluginOptions) -> PluginState {
    PluginState::new(filename.to_string(), opts, PathEnv { cwd: "/Users/ryan/project".to_string(), project_root: None })
}

#[test]
fn test_get_prefix_basic() {
    let state = plugin_state("src/components/App.js", plugin_options());
    assert_eq!(get_prefix(&state, None), "src.components");
}

#[test]
fn test_get_prefix_with_export_name() {
    let state = plugin_state("src/components/App.js", plugin_options());
    assert_eq!(get_prefix(&state, Some("hello")), "src.components.hello");
}

#[test]
fn test_get_prefix_remove_prefix_true() {
    let mut opts = plugin_options();
    opts.remove_prefix = Some(PluginRemovePrefix::Boolean(true));
    let state = plugin_state("src/components/App.js", opts);
    assert_eq!(get_prefix(&state, Some("hello")), "hello");
}

#[test]
fn test_get_prefix_remove_prefix_string() {
    let mut opts = plugin_options();
    opts.remove_prefix = Some(PluginRemovePrefix::String("src/".to_string()));
    let state = plugin_state("src/components/App.js", opts);
    assert_eq!(get_prefix(&state, Some("hello")), "components.hello");
}

#[test]
fn test_get_prefix_remove_prefix_regex() {
    let mut opts = plugin_options();
    opts.remove_prefix = Some(PluginRemovePrefix::String("src/.*/".to_string()));
    let state = plugin_state("src/components/App.js", opts);
    assert_eq!(get_prefix(&state, Some("hello")), "hello");
}

#[test]
fn test_get_prefix_relative_to_relative_path() {
    let mut opts = plugin_options();
    opts.relative_to = Some("src".to_string());
    let state = plugin_state("src/components/App.js", opts);
    assert_eq!(get_prefix(&state, Some("hello")), "components.hello");
}

#[test]
fn test_get_prefix_relative_to_absolute_path() {
    let mut opts = plugin_options();
    opts.relative_to = Some("/Users/ryan/project/src".to_string());
    let state = plugin_state("/Users/ryan/project/src/components/App.js", opts);
    assert_eq!(get_prefix(&state, Some("hello")), "components.hello");
}

#[test]
fn test_get_prefix_relative_to_nested_relative() {
    let mut opts = plugin_options();
    opts.relative_to = Some("src/components".to_string());
    let state = plugin_state("src/components/App.js", opts);
    assert_eq!(get_prefix(&state, Some("hello")), "hello");
}

#[test]
fn test_get_prefix_relative_to_nested_absolute() {
    let mut opts = plugin_options();
    opts.relative_to = Some("/Users/ryan/project/src/components".to_string());
    let state = plugin_state("/Users/ryan/project/src/components/App.js", opts);
    assert_eq!(get_prefix(&state, Some("hello")), "hello");
}

#[test]
fn test_get_prefix_relative_to_with_trailing_slash() {
    let mut opts = plugin_options();
    opts.relative_to = Some("src/".to_string());
    let state = plugin_state("src/components/App.js", opts);
    assert_eq!(get_prefix(&state, Some("hello")), "components.hello");
}

#[test]
fn test_get_prefix_relative_to_no_match() {
    let mut opts = plugin_options();
    opts.relative_to = Some("other".to_string());
    let state = plugin_state("src/components/App.js", opts);
    assert_eq!(get_prefix(&state, Some("hello")), "src.components.hello");
}

#[test]
fn test_get_prefix_relative_to_exact_match() {
    let mut opts = plugin_options();
    opts.relative_to = Some("/Users/ryan/project/src/components/App.js".to_string());
    let state = plugin_state("/Users/ryan/project/src/components/App.js", opts);
    assert_eq!(get_prefix(&state, Some("hello")), "hello");
}

#[test]
fn test_get_prefix_filebase() {
    let mut opts = plugin_options();
    opts.filebase = true;
    let state = plugin_state("src/components/App.js", opts);
    assert_eq!(get_prefix(&state, Some("hello")), "App.hello");
}

#[test]
fn test_get_prefix_custom_separator() {
    let mut opts = plugin_options();
    opts.separator = "_".to_string();
    let state = plugin_state("src/components/App.js", opts);
    assert_eq!(get_prefix(&state, Some("hello")), "src_components_hello");
}

#[test]
fn test_get_prefix_combined_options() {
    let mut opts = plugin_options();
    opts.relative_to = Some("src".to_string());
    opts.remove_prefix = Some(PluginRemovePrefix::String("components/".to_string()));
    opts.filebase = true;
    let state = plugin_state("src/components/App.js", opts);
    assert_eq!(get_prefix(&state, Some("hello")), "App.hello");
}

#[test]
fn test_get_prefix_empty_export_name() {
    let state = plugin_state("src/components/App.js", plugin_options());
    assert_eq!(get_prefix(&state, Some("")), "src.components.");
}

#[test]
fn test_get_prefix_no_export_name() {
    let state = plugin_state("src/components/App.js", plugin_options());
    assert_eq!(get_prefix(&state, None), "src.components");
}

#[test]
fn test_get_prefix_remove_prefix_boolean_false() {
    let mut opts = plugin_options();
    opts.remove_prefix = Some(PluginRemovePrefix::Boolean(false));
    let state = plugin_state("src/components/App.js", opts);
    assert_eq!(get_prefix(&state, Some("hello")), "src.components.hello");
}

#[test]
fn test_get_prefix_with_different_file_extensions() {
    let opts = plugin_options();
    let state = plugin_state("src/components/App.tsx", opts.clone());
    assert_eq!(get_prefix(&state, Some("hello")), "src.components.hello");
    let state = plugin_state("src/components/App.ts", opts.clone());
    assert_eq!(get_prefix(&state, Some("hello")), "src.components.hello");
    let state = plugin_state("src/components/App", opts);
    assert_eq!(get_prefix(&state, Some("hello")), "src.components.hello");
}

#[test]
fn get_prefix_relative_to_the_project_root() {
    let state = PluginState::new(
        "/Users/ryan/project/src/components/App.js".to_string(),
        plugin_options(),
        PathEnv { cwd: "/".to_string(), project_root: Some("/Users/ryan/project".to_string()) },
    );
    assert_eq!(get_prefix(&state, Some("hello")), "src.components.hello");
}

#[test]
fn get_prefix_invalid_regex_gives_the_export_name() {
    let mut opts = plugin_options();
    opts.remove_prefix = Some(PluginRemovePrefix::String("[".to_string()));
    let state = plugin_state("src/components/App.js", opts);
    assert_eq!(get_prefix(&state, Some("hello")), "hello");
    assert_eq!(get_prefix(&state, None), "");
}

#[test]
fn plugin_options_default_values() {
    let opts = PluginOptions::default();
    assert!(opts.remove_prefix.is_none());
    assert!(!opts.filebase);
    assert!(opts.include_export_name.is_none());
    assert!(opts.extract_comments);
    assert!(!opts.use_key);
    assert_eq!(opts.module_source_name, "react-intl");
    assert_eq!(opts.separator, ".");
    assert!(opts.relative_to.is_none());
    let _ = IncludeExportName::All;
}

#[test]
fn try_generate_message_id_agrees_with_generate() {
    let state = create_test_state("/repo/src/components/App.js", create_default_options());
    let key = "hello".to_string();
    let none: Option<String> = None;
    let payload = GenIdPayload::Key(GenIdFromKeyPayload { key: &key, description: &none });
    assert_eq!(try_generate_message_id(&state, &payload), Some(generate_message_id(&state, &payload)));
    assert_eq!(generate_message_id(&state, &payload), "src.components.App.hello");

    let mut hashed = create_default_options();
    hashed.hash_id = true;
    let state = create_test_state("/repo/src/components/App.js", hashed);
    let dm = "Hello".to_string();
    let payload = GenIdPayload::Descriptor(GenIdFromDescriptorPayload { default_message: &dm, description: &none });
    let id = try_generate_message_id(&state, &payload).unwrap();
    assert_eq!(id.len(), 8);
    assert!(id.ends_with("=="));
}

#[test]
fn dot_path_round_trips_with_a_fresh_separator() {
    let path = "src/components/App";
    let dotted = dot_path(path, ".");
    assert_eq!(dotted.len(), path.len());
    assert!(!dotted.contains('/'));
    assert_eq!(dotted.replace('.', "/"), path);
}

#[test]
fn add_prefix_keeps_the_suffix() {
    let state = create_test_state("/repo/src/components/App.js", create_default_options());
    assert!(add_prefix(&state, "abc").ends_with("abc"));
}

use react_intl_auto::path_utils;
use react_intl_auto::project_root::{
    extractor_indicator_list, find_project_root, find_project_root_among, RootSearch, SearchStep,
};

fn none_exist() -> Vec<String> {
    Vec::new()
}

#[test]
fn test_find_project_root_with_package_json() {
    let test_path = "/some/path/to/project/src/components/Button.tsx";
    let result = find_project_root(test_path, &none_exist());
    assert!(result.is_none() || result.is_some());
}

#[test]
fn test_find_project_root_indicators() {
    let test_path = "/home/user/project/src/file.js";
    let result = find_project_root(test_path, &none_exist());
    assert!(result.is_none() || result.is_some());
}

fn existing(paths: &[&str]) -> Vec<String> {
    paths.iter().map(|p| p.to_string()).collect()
}

#[test]
fn path_test_find_project_root_with_package_json() {
    let found = existing(&["/tmp/p/package.json", "/tmp/p/src/components/Button.tsx"]);
    let result = find_project_root_among("/tmp/p/src/components/Button.tsx", extractor_indicator_list(), &found);
    assert_eq!(result, Some("/tmp/p".to_string()));
}

#[test]
fn path_test_find_project_root_with_yarn_lock() {
    let found = existing(&["/tmp/p/yarn.lock", "/tmp/p/src/App.tsx"]);
    let result = find_project_root_among("/tmp/p/src/App.tsx", extractor_indicator_list(), &found);
    assert_eq!(result, Some("/tmp/p".to_string()));
}

#[test]
fn path_test_find_project_root_with_git() {
    let found = existing(&["/tmp/p/.git", "/tmp/p/src/index.js"]);
    let result = find_project_root_among("/tmp/p/src/index.js", extractor_indicator_list(), &found);
    assert_eq!(result, Some("/tmp/p".to_string()));
}

#[test]
fn path_test_find_project_root_no_indicators() {
    let found = existing(&["/tmp/p/src/file.js"]);
    let result = find_project_root_among("/tmp/p/src/file.js", extractor_indicator_list(), &found);
    assert!(result.is_none());
}

#[test]
fn path_test_find_project_root_nested_structure() {
    let file = "/tmp/p/src/components/ui/buttons/PrimaryButton.tsx";
    let found = existing(&["/tmp/p/package.json", file]);
    let result = find_project_root_among(file, extractor_indicator_list(), &found);
    assert_eq!(result, Some("/tmp/p".to_string()));
}

#[test]
fn path_test_find_project_root_priority_order() {
    let found = existing(&["/tmp/p/package.json", "/tmp/p/yarn.lock", "/tmp/p/subdir/file.js"]);
    let result = find_project_root_among("/tmp/p/subdir/file.js", extractor_indicator_list(), &found);
    assert_eq!(result, Some("/tmp/p".to_string()));
}

#[test]
fn project_root_is_the_closest_directory_with_an_indicator() {
    let found = existing(&["/a/package.json", "/a/b/tsconfig.json"]);
    assert_eq!(find_project_root("/a/b/c/d.js", &found), Some("/a/b".to_string()));
    // tsconfig.json is not an indicator of the extractor.
    assert_eq!(
        find_project_root_among("/a/b/c/d.js", extractor_indicator_list(), &found),
        Some("/a".to_string())
    );
    // The file's own directory counts.
    let found = existing(&["/a/b/c/.git"]);
    assert_eq!(find_project_root("/a/b/c/d.js", &found), Some("/a/b/c".to_string()));
    // The root directory counts too.
    let found = existing(&["/yarn.lock"]);
    assert_eq!(find_project_root("/a/b/c/d.js", &found), Some("/".to_string()));
}

#[test]
fn project_root_of_relative_paths() {
    let found = existing(&["package.json"]);
    assert_eq!(find_project_root("src/App.js", &found), Some("".to_string()));
    let found = existing(&["src/package.json"]);
    assert_eq!(find_project_root("src/App.js", &found), Some("src".to_string()));
    assert_eq!(find_project_root("", &found), None);
}

#[test]
fn root_search_steps() {
    let mut search = RootSearch::start("/a/b.js", extractor_indicator_list()).unwrap();
    assert_eq!(search.probe(), "/a/package.json");
    assert_eq!(search.step(false), SearchStep::Continue);
    assert_eq!(search.probe(), "/a/package-lock.json");
    assert_eq!(search.step(false), SearchStep::Continue);
    assert_eq!(search.step(false), SearchStep::Continue);
    assert_eq!(search.probe(), "/a/.git");
    assert_eq!(search.step(false), SearchStep::Continue);
    assert_eq!(search.probe(), "/package.json");
    assert_eq!(search.step(true), SearchStep::Found("/".to_string()));
    assert!(RootSearch::start("/", extractor_indicator_list()).is_none());
}

#[test]
fn placeholder_path_helpers() {
    let opts = path_utils::PathOptions::default();
    assert_eq!(opts.separator, ".");
    assert_eq!(path_utils::get_prefix("src/App.js", &opts, Some("x")), "placeholder");
    assert!(path_utils::find_project_root("/a/b/c.js").is_none());
    assert_eq!(path_utils::dot_path("a/b/c", "_"), "a_b_c");
}

#[test]
fn project_root_test_test_find_project_root_with_package_json() {
    let file = "/tmp/q/src/components/Button.tsx";
    let found = existing(&["/tmp/q/package.json", file]);
    let result = find_project_root(file, &found);
    assert!(result.is_some());
    assert_eq!(result.unwrap(), "/tmp/q".to_string());
}

#[test]
fn project_root_test_test_find_project_root_with_yarn_lock() {
    let file = "/tmp/q/src/App.tsx";
    let found = existing(&["/tmp/q/yarn.lock", file]);
    let result = find_project_root(file, &found);
    assert!(result.is_some());
    assert_eq!(result.unwrap(), "/tmp/q".to_string());
}

#[test]
fn project_root_test_test_find_project_root_with_git() {
    let file = "/tmp/q/src/index.js";
    let found = existing(&["/tmp/q/.git", file]);
    let result = find_project_root(file, &found);
    assert!(result.is_some());
    assert_eq!(result.unwrap(), "/tmp/q".to_string());
}

#[test]
fn project_root_test_test_find_project_root_no_indicators() {
    let file = "/tmp/q/src/file.js";
    let found = existing(&[file]);
    let result = find_project_root(file, &found);
    assert!(result.is_none());
}

#[test]
fn project_root_test_test_find_project_root_nested_structure() {
    let file = "/tmp/q/src/components/ui/buttons/PrimaryButton.tsx";
    let found = existing(&["/tmp/q/package.json", file]);
    let result = find_project_root(file, &found);
    assert!(result.is_some());
    assert_eq!(result.unwrap(), "/tmp/q".to_string());
}

#[test]
fn project_root_test_test_find_project_root_priority_order() {
    let file = "/tmp/q/subdir/file.js";
    let found = existing(&["/tmp/q/package.json", "/tmp/q/yarn.lock", "/tmp/q/subdir/package.json", file]);
    let result = find_project_root(file, &found);
    assert!(result.is_some());
    assert_eq!(result.unwrap(), "/tmp/q/subdir".to_string());
}

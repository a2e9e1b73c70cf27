//! Options and state of the SWC plugin.

use vstd::prelude::*;
use crate::types::PathEnv;

verus! {

/// How the path part of an ID is shortened.
#[derive(Debug, Clone, PartialEq, Eq)]
pub enum RemovePrefix {
    /// `true` drops the path part entirely; `false` keeps it.
    Boolean(bool),
    /// A leading path to drop, or a regular expression whose matches are
    /// dropped from the file name.
    String(String),
}

/// Whether the name of the export that holds the messages is part of their IDs.
#[derive(Debug, Clone, PartialEq, Eq)]
pub enum IncludeExportName {
    Boolean(bool),
    All,
}

/// The plugin's options.
#[derive(Debug, Clone)]
pub struct PluginOptions {
    pub remove_prefix: Option<RemovePrefix>,
    pub filebase: bool,
    pub include_export_name: Option<IncludeExportName>,
    pub extract_comments: bool,
    pub use_key: bool,
    pub module_source_name: String,
    pub separator: String,
    pub relative_to: Option<String>,
}

impl Default for PluginOptions {
    fn default() -> (r: Self)
        ensures
            r.remove_prefix is None,
            !r.filebase,
            r.include_export_name is None,
            r.extract_comments,
            !r.use_key,
            r.module_source_name@ == "react-intl"@,
            r.separator@ == "."@,
            r.relative_to is None,
    {
        PluginOptions {
            remove_prefix: None,
            filebase: false,
            include_export_name: None,
            extract_comments: true,
            use_key: false,
            module_source_name: default_module_source_name(),
            separator: default_separator(),
            relative_to: None,
        }
    }
}

/// The default module source name, `react-intl`.
fn default_module_source_name() -> (r: String)
    ensures
        r@ == "react-intl"@,
{
    crate::types::default_module_source_name()
}

/// The default separator, `.`.
fn default_separator() -> (r: String)
    ensures
        r@ == "."@,
{
    crate::types::default_separator()
}

/// The file being transformed, with the plugin's options.
///
/// `env.project_root` is the project root that
/// `project_root::find_project_root` finds above the file when its name is
/// absolute, and above the working directory when it is relative.
#[derive(Debug, Clone)]
pub struct PluginState {
    pub filename: String,
    pub opts: PluginOptions,
    pub env: PathEnv,
}

impl PluginState {
    pub fn new(filename: String, opts: PluginOptions, env: PathEnv) -> (r: Self)
        ensures
            r.filename == filename,
            r.opts == opts,
            r.env == env,
    {
        PluginState { filename, opts, env }
    }
}

} // verus!

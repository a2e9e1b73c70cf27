//! Options and state shared by the transform and the extractor.

use vstd::prelude::*;
use crate::text::owned;

verus! {

/// How the path part of an ID is shortened.
#[derive(Debug, Clone, PartialEq, Eq)]
pub enum RemovePrefix {
    /// `true` drops the path part entirely; `false` keeps it.
    Boolean(bool),
    /// A leading path to drop, or a regular expression whose matches are dropped.
    String(String),
}

/// Output mode for CLI extraction.
#[derive(Debug, Clone, PartialEq, Eq)]
pub enum OutputMode {
    /// One JSON file for all messages.
    Aggregated,
    /// One JSON file per source file.
    PerFile,
}

impl Default for OutputMode {
    fn default() -> (r: Self)
        ensures
            r == OutputMode::Aggregated,
    {
        OutputMode::Aggregated
    }
}

/// Options for the plugin and the extractor.
#[derive(Debug, Clone)]
pub struct CoreOptions {
    /// Remove prefix from file path.
    pub remove_prefix: Option<RemovePrefix>,
    /// react-intl module source name.
    pub module_source_name: String,
    /// ID separator.
    pub separator: String,
    /// Directory the path part of an ID is taken relative to.
    pub relative_to: Option<String>,
    /// Hash the whole ID.
    pub hash_id: bool,
    /// Hash function for the whole ID.
    pub hash_algorithm: String,
    /// CLI only: record the source file of each extracted message.
    pub extract_source_location: bool,
    /// CLI only: one output file, or one per source file.
    pub output_mode: OutputMode,
}

/// The default module source name, `react-intl`.
pub fn default_module_source_name() -> (r: String)
    ensures
        r@ == "react-intl"@,
{
    owned("react-intl")
}

/// The default separator, `.`.
pub fn default_separator() -> (r: String)
    ensures
        r@ == "."@,
{
    owned(".")
}

/// The default hash algorithm, `murmur3`.
pub fn default_hash_algorithm() -> (r: String)
    ensures
        r@ == "murmur3"@,
{
    owned("murmur3")
}

impl Default for CoreOptions {
    fn default() -> (r: Self)
        ensures
            r.remove_prefix is None,
            r.module_source_name@ == "react-intl"@,
            r.separator@ == "."@,
            r.relative_to is None,
            !r.hash_id,
            r.hash_algorithm@ == "murmur3"@,
            !r.extract_source_location,
            r.output_mode == OutputMode::Aggregated,
    {
        CoreOptions {
            remove_prefix: None,
            module_source_name: default_module_source_name(),
            separator: default_separator(),
            relative_to: None,
            hash_id: false,
            hash_algorithm: default_hash_algorithm(),
            extract_source_location: false,
            output_mode: OutputMode::Aggregated,
        }
    }
}

/// What the file system and the process say about a source file's location:
/// the working directory, and the project root found above the file (see
/// `project_root::find_project_root`).
#[derive(Debug, Clone)]
pub struct PathEnv {
    /// The current working directory.
    pub cwd: String,
    /// The closest directory above the file that holds a project indicator.
    pub project_root: Option<String>,
}

/// The file being processed, with its options.
#[derive(Debug, Clone)]
pub struct CoreState {
    pub filename: String,
    pub opts: CoreOptions,
    pub env: PathEnv,
}

impl CoreState {
    pub fn new(filename: String, opts: CoreOptions, env: PathEnv) -> (r: Self)
        ensures
            r.filename == filename,
            r.opts == opts,
            r.env == env,
    {
        CoreState { filename, opts, env }
    }
}

/// The React Intl components that carry messages.
pub open spec fn is_react_component_name(name: Seq<char>) -> bool {
    name == "FormattedMessage"@ || name == "FormattedHTMLMessage"@
}

/// Whether `name` is one of the React Intl components that carry messages.
pub fn react_components_contains(name: &str) -> (r: bool)
    ensures
        r == is_react_component_name(name@),
{
    crate::text::str_eq(name, "FormattedMessage") || crate::text::str_eq(name, "FormattedHTMLMessage")
}

/// A message with the ID it ends up with.
#[derive(Debug, Clone, PartialEq, Eq)]
pub struct TransformedMessageData {
    pub id: String,
    pub default_message: Option<String>,
    pub description: Option<String>,
}

/// A message as plain text.
pub struct MessageSpec {
    pub id: Seq<char>,
    pub default_message: Option<Seq<char>>,
    pub description: Option<Seq<char>>,
}

/// The view of an optional string.
pub open spec fn opt_seq(o: Option<String>) -> Option<Seq<char>> {
    match o {
        Some(s) => Some(s@),
        None => None,
    }
}

impl View for TransformedMessageData {
    type V = MessageSpec;

    open spec fn view(&self) -> MessageSpec {
        MessageSpec {
            id: self.id@,
            default_message: opt_seq(self.default_message),
            description: opt_seq(self.description),
        }
    }
}

/// A `remove_prefix` option as plain values.
pub enum RemovePrefixSpec {
    Boolean(bool),
    String(Seq<char>),
}

/// The plain value of a `remove_prefix` option.
pub open spec fn remove_prefix_view(o: Option<RemovePrefix>) -> Option<RemovePrefixSpec> {
    match o {
        Some(RemovePrefix::Boolean(b)) => Some(RemovePrefixSpec::Boolean(b)),
        Some(RemovePrefix::String(s)) => Some(RemovePrefixSpec::String(s@)),
        None => None,
    }
}

/// A copy of an optional string.
pub fn copy_opt_string(o: &Option<String>) -> (r: Option<String>)
    ensures
        opt_seq(r) == opt_seq(*o),
{
    match o {
        Some(s) => Some(owned(s.as_str())),
        None => None,
    }
}

/// A copy of a message.
pub fn copy_message(t: &TransformedMessageData) -> (r: TransformedMessageData)
    ensures
        r@ == t@,
{
    TransformedMessageData {
        id: owned(t.id.as_str()),
        default_message: copy_opt_string(&t.default_message),
        description: copy_opt_string(&t.description),
    }
}

/// An exact copy of a string option.
fn clone_opt_string(o: &Option<String>) -> (r: Option<String>)
    ensures
        r == *o,
{
    match o {
        Some(s) => Some(s.clone()),
        None => None,
    }
}

/// An exact copy of the options.
pub fn copy_options(o: &CoreOptions) -> (r: CoreOptions)
    ensures
        r == *o,
{
    CoreOptions {
        remove_prefix: match &o.remove_prefix {
            Some(RemovePrefix::Boolean(b)) => Some(RemovePrefix::Boolean(*b)),
            Some(RemovePrefix::String(s)) => Some(RemovePrefix::String(s.clone())),
            None => None,
        },
        module_source_name: o.module_source_name.clone(),
        separator: o.separator.clone(),
        relative_to: clone_opt_string(&o.relative_to),
        hash_id: o.hash_id,
        hash_algorithm: o.hash_algorithm.clone(),
        extract_source_location: o.extract_source_location,
        output_mode: match o.output_mode {
            OutputMode::Aggregated => OutputMode::Aggregated,
            OutputMode::PerFile => OutputMode::PerFile,
        },
    }
}

} // verus!


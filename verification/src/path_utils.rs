//! Path helpers of the extractor's first interface: the prefix and project
//! root lookups answer with fixed values (see `gen_path::add_prefix` and
//! `project_root` for the ones in use).

use vstd::prelude::*;
use crate::gen_path::spec_dot_path;
use crate::text::{chars_of, owned, replace_char_exec, string_of};
use crate::types::default_separator;

verus! {

/// Options for prefix generation.
#[derive(Debug, Clone)]
pub struct PathOptions {
    pub remove_prefix: Option<String>,
    pub filebase: bool,
    pub separator: String,
    pub relative_to: Option<String>,
}

impl Default for PathOptions {
    fn default() -> (r: Self)
        ensures
            r.remove_prefix is None,
            !r.filebase,
            r.separator@ == "."@,
            r.relative_to is None,
    {
        PathOptions { remove_prefix: None, filebase: false, separator: default_separator(), relative_to: None }
    }
}

/// The prefix lookup of this interface: always `placeholder`.
pub fn get_prefix(_filename: &str, _opts: &PathOptions, _export_name: Option<&str>) -> (r: String)
    ensures
        r@ == "placeholder"@,
{
    owned("placeholder")
}

/// The project root lookup of this interface: never finds one.
pub fn find_project_root(_file_path: &str) -> (r: Option<String>)
    ensures
        r is None,
{
    None
}

/// `path` with each `/` replaced by `separator`.
pub fn dot_path(path: &str, separator: &str) -> (r: String)
    ensures
        r@ == spec_dot_path(path@, separator@),
{
    let p = chars_of(path);
    let sep = chars_of(separator);
    string_of(&replace_char_exec(&p, '/', &sep))
}

} // verus!

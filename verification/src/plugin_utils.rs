//! The plugin's ID helpers: hashes, dotted paths and the path prefix of IDs.

use vstd::prelude::*;
use crate::gen_path::{
    dot_path_chars, dot_path_replace_chars, looks_like_regex, looks_like_regex_exec, make_absolute,
    make_absolute_exec, relative_id_path, relative_id_path_exec, spec_dot_path, spec_dot_path_replace,
    strip_extension, strip_extension_exec, with_suffix, with_suffix_exec, opt_view,
};
use crate::hashing::{hashable, murmur_decimal};
use crate::id_generator::{can_hash, murmur32_hash, spec_hash_string};
use crate::paths::{file_stem, file_stem_exec, strip_prefix, strip_prefix_exec};
use crate::pattern::{regex_compiles, regex_remove_matches, PrefixPattern};
use crate::plugin_types::{PluginState, RemovePrefix};
use crate::text::{
    all_chars_in, all_chars_in_exec, all_whitespace, all_whitespace_exec, chars_of, owned,
    rfind_seq, rfind_seq_exec, slice_of, string_of,
};

verus! {

/// The murmur3 hash (seed 0) of `message`, in decimal.
pub fn create_hash(message: &str) -> (r: String)
    requires
        hashable(message@),
    ensures
        r@ == murmur_decimal(message@),
{
    murmur32_hash(message)
}

/// `input` hashed with `algorithm`: `base64` encodes, anything else is murmur3.
pub fn hash_string(input: &str, algorithm: &str) -> (r: String)
    requires
        can_hash(input@, algorithm@),
    ensures
        r@ == spec_hash_string(input@, algorithm@),
{
    crate::id_generator::hash_string(input, algorithm)
}

/// `path` with each `/` replaced by `separator`.
pub fn dot_path(path: &str, separator: &str) -> (r: String)
    ensures
        r@ == spec_dot_path(path@, separator@),
{
    crate::gen_path::dot_path(path, separator)
}

/// The dotted `formatted` without the dotted `remove_prefix` at its start.
pub fn dot_path_replace(formatted: &str, remove_prefix: &str, separator: &str) -> (r: String)
    ensures
        r@ == spec_dot_path_replace(formatted@, remove_prefix@, separator@),
{
    crate::gen_path::dot_path_replace(formatted, remove_prefix, separator)
}

/// The name, or nothing.
pub open spec fn name_or_empty(export_name: Option<Seq<char>>) -> Seq<char> {
    match export_name {
        Some(n) => n,
        None => Seq::empty(),
    }
}

/// The view of an optional string slice.
pub open spec fn opt_str_view(o: Option<&str>) -> Option<Seq<char>> {
    match o {
        Some(s) => Some(s@),
        None => None,
    }
}

/// The path of the state's file before `remove_prefix` applies: relative to
/// `relative_to` when the file lies below it, else relative to the project
/// root when it lies below that, else the file name itself, dotted and without
/// its extension.
pub open spec fn plugin_path_prefix(state: PluginState) -> Seq<char> {
    let filename = state.filename@;
    let sep = state.opts.separator@;
    let cwd = state.env.cwd@;
    let base = spec_dot_path(strip_extension(filename), sep);
    let abs = make_absolute(filename, cwd);
    match state.opts.relative_to {
        Some(rt) => match strip_prefix(abs, make_absolute(rt@, cwd)) {
            Some(rel) => spec_dot_path(strip_extension(rel), sep),
            None => base,
        },
        None => match opt_view(state.env.project_root) {
            Some(root) => match strip_prefix(abs, root) {
                Some(rel) => relative_id_path(rel, sep),
                None => base,
            },
            None => base,
        },
    }
}

/// What is left of the file name after a regular-expression `remove_prefix`:
/// its matches removed, then its extension.
pub open spec fn regex_rest(pattern: Seq<char>, filename: Seq<char>) -> Seq<char> {
    strip_extension(regex_remove_matches(pattern, filename))
}

/// The prefix after `remove_prefix` applies; `None` when the ID is the export
/// name alone.
pub open spec fn prefix_after_removal(state: PluginState, prefix: Seq<char>) -> Option<Seq<char>> {
    let sep = state.opts.separator@;
    match state.opts.remove_prefix {
        Some(RemovePrefix::Boolean(true)) => Some(Seq::empty()),
        Some(RemovePrefix::String(s)) => if looks_like_regex(s@) {
            if !regex_compiles(s@) {
                None
            } else {
                let rest = regex_rest(s@, state.filename@);
                if all_whitespace(rest) || all_chars_in(rest, '/', '\\') {
                    None
                } else {
                    Some(spec_dot_path(rest, sep))
                }
            }
        } else {
            Some(spec_dot_path_replace(prefix, s@, sep))
        },
        _ => Some(prefix),
    }
}

/// The directory part of the prefix (or, with `filebase`, the file's stem).
pub open spec fn directory_part(state: PluginState, prefix: Seq<char>) -> Seq<char> {
    let sep = state.opts.separator@;
    if state.opts.filebase {
        match file_stem(state.filename@) {
            Some(stem) => stem,
            None => prefix,
        }
    } else if prefix.len() == 0 {
        prefix
    } else {
        match rfind_seq(prefix, sep) {
            Some(pos) => prefix.take(pos),
            None => Seq::empty(),
        }
    }
}

/// The ID prefix of the state's file, followed by the export name.
pub open spec fn spec_get_prefix(state: PluginState, export_name: Option<Seq<char>>) -> Seq<char> {
    if state.opts.remove_prefix == Some(RemovePrefix::Boolean(true)) {
        name_or_empty(export_name)
    } else {
        match prefix_after_removal(state, plugin_path_prefix(state)) {
            None => name_or_empty(export_name),
            Some(p) => {
                let d = directory_part(state, p);
                match export_name {
                    None => d,
                    Some(name) => with_suffix(d, state.opts.separator@, name),
                }
            },
        }
    }
}

/// The path of the state's file before `remove_prefix` applies.
fn plugin_path_prefix_exec(state: &PluginState) -> (r: Vec<char>)
    ensures
        r@ == plugin_path_prefix(*state),
{
    let filename = chars_of(state.filename.as_str());
    let sep = chars_of(state.opts.separator.as_str());
    let cwd = chars_of(state.env.cwd.as_str());
    let base = dot_path_chars(&strip_extension_exec(&filename), &sep);
    let abs = make_absolute_exec(&filename, &cwd);
    match &state.opts.relative_to {
        Some(rt) => {
            let rt = chars_of(rt.as_str());
            let rt_abs = make_absolute_exec(&rt, &cwd);
            match strip_prefix_exec(&abs, &rt_abs) {
                Some(rel) => dot_path_chars(&strip_extension_exec(&rel), &sep),
                None => base,
            }
        },
        None => match &state.env.project_root {
            Some(root) => {
                let root = chars_of(root.as_str());
                match strip_prefix_exec(&abs, &root) {
                    Some(rel) => relative_id_path_exec(&rel, &sep),
                    None => base,
                }
            },
            None => base,
        },
    }
}

/// The prefix after `remove_prefix` applies.
fn prefix_after_removal_exec(state: &PluginState, prefix: Vec<char>) -> (r: Option<Vec<char>>)
    ensures
        r matches Some(v) ==> prefix_after_removal(*state, prefix@) == Some(v@),
        r is None ==> prefix_after_removal(*state, prefix@) is None,
{
    let sep = chars_of(state.opts.separator.as_str());
    match &state.opts.remove_prefix {
        Some(RemovePrefix::Boolean(true)) => Some(Vec::new()),
        Some(RemovePrefix::String(s)) => {
            let s_chars = chars_of(s.as_str());
            if looks_like_regex_exec(&s_chars) {
                match PrefixPattern::compile(s.as_str()) {
                    None => None,
                    Some(pattern) => {
                        let removed = pattern.remove_matches(state.filename.as_str());
                        let rest = strip_extension_exec(&chars_of(removed.as_str()));
                        if all_whitespace_exec(&rest) || all_chars_in_exec(&rest, '/', '\\') {
                            None
                        } else {
                            Some(dot_path_chars(&rest, &sep))
                        }
                    },
                }
            } else {
                Some(dot_path_replace_chars(&prefix, &s_chars, &sep))
            }
        },
        _ => Some(prefix),
    }
}

/// The directory part of the prefix (or the file's stem).
fn directory_part_exec(state: &PluginState, prefix: Vec<char>) -> (r: Vec<char>)
    ensures
        r@ == directory_part(*state, prefix@),
{
    if state.opts.filebase {
        let filename = chars_of(state.filename.as_str());
        match file_stem_exec(&filename) {
            Some(stem) => stem,
            None => prefix,
        }
    } else if prefix.len() == 0 {
        prefix
    } else {
        let sep = chars_of(state.opts.separator.as_str());
        match rfind_seq_exec(&prefix, &sep) {
            Some(pos) => slice_of(&prefix, 0, pos),
            None => Vec::new(),
        }
    }
}

/// The prefix of the IDs in the state's file, followed by `export_name` when
/// one is given.
pub fn get_prefix(state: &PluginState, export_name: Option<&str>) -> (r: String)
    ensures
        r@ == spec_get_prefix(*state, opt_str_view(export_name)),
        state.opts.remove_prefix == Some(RemovePrefix::Boolean(true)) ==> r@ == name_or_empty(
            opt_str_view(export_name),
        ),
{
    let name_only = match export_name {
        Some(n) => owned(n),
        None => String::new(),
    };
    if let Some(RemovePrefix::Boolean(true)) = &state.opts.remove_prefix {
        return name_only;
    }
    let prefix = plugin_path_prefix_exec(state);
    match prefix_after_removal_exec(state, prefix) {
        None => name_only,
        Some(p) => {
            let d = directory_part_exec(state, p);
            match export_name {
                None => string_of(&d),
                Some(name) => {
                    let sep = chars_of(state.opts.separator.as_str());
                    string_of(&with_suffix_exec(&d, &sep, &chars_of(name)))
                },
            }
        },
    }
}

} // verus!

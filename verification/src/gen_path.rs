//! The path part of message IDs.
//!
//! An ID starts with the source file's path (relative to `relative_to`, to the
//! project root, or to the working directory), its separators replaced by the
//! ID separator and shortened as `remove_prefix` asks.

use vstd::prelude::*;
use crate::paths::{
    diff_paths_exec, is_absolute, is_absolute_exec, join, join_exec, path_diff, strip_prefix,
    strip_prefix_exec,
};
use crate::pattern::{regex_compiles, regex_remove_matches, PrefixPattern};
use crate::text::{
    chars1, chars2, chars_of, concat, contains_exec, contains_seq, ends_with, ends_with_exec, owned, push_all,
    replace_all, replace_all_exec, replace_char, replace_char_exec, rfind_char, rfind_char_exec,
    slice_of, starts_with, starts_with_exec, string_of, trim_end_char, trim_end_char_exec,
    trim_start_char, trim_start_char_exec,
};
use crate::types::{CoreState, RemovePrefix};

verus! {

/// The view of an optional string.
pub open spec fn opt_view(o: Option<String>) -> Option<Seq<char>> {
    match o {
        Some(s) => Some(s@),
        None => None,
    }
}

/// `path` with its path separators replaced by `separator`.
pub open spec fn spec_dot_path(path: Seq<char>, separator: Seq<char>) -> Seq<char> {
    replace_char(path, '/', separator)
}

/// `remove_prefix` without one trailing `separator`.
pub open spec fn without_trailing(prefix: Seq<char>, separator: Seq<char>) -> Seq<char> {
    if ends_with(prefix, separator) {
        prefix.take(prefix.len() - separator.len())
    } else {
        prefix
    }
}

/// The dotted `formatted` without the dotted `remove_prefix` (and the separator
/// after it) at its start.
pub open spec fn spec_dot_path_replace(
    formatted: Seq<char>,
    remove_prefix: Seq<char>,
    separator: Seq<char>,
) -> Seq<char> {
    let formatted_path = spec_dot_path(formatted, separator);
    let prefix = without_trailing(spec_dot_path(remove_prefix, separator), separator);
    if starts_with(formatted_path, prefix) {
        let remaining = formatted_path.skip(prefix.len() as int);
        if starts_with(remaining, separator) {
            remaining.skip(separator.len() as int)
        } else {
            remaining
        }
    } else {
        formatted_path
    }
}

/// `s` up to its last `.`.
pub open spec fn strip_extension(s: Seq<char>) -> Seq<char> {
    match rfind_char(s, '.') {
        Some(i) => s.take(i),
        None => s,
    }
}

/// `p`, read from the working directory `cwd`.
pub open spec fn make_absolute(p: Seq<char>, cwd: Seq<char>) -> Seq<char> {
    if is_absolute(p) {
        p
    } else {
        join(cwd, p)
    }
}

/// `s` without one leading `/` or `\`.
pub open spec fn drop_leading_separator(s: Seq<char>) -> Seq<char> {
    if s.len() > 0 && (s[0] == '/' || s[0] == '\\') {
        s.drop_first()
    } else {
        s
    }
}

/// A relative file path as the path part of an ID.
pub open spec fn relative_id_path(rel: Seq<char>, separator: Seq<char>) -> Seq<char> {
    spec_dot_path(drop_leading_separator(strip_extension(rel)), separator)
}

/// The path part of an ID relative to the working directory, or the whole
/// file name when no relative path leads there.
pub open spec fn cwd_relative_prefix(
    abs: Seq<char>,
    cwd: Seq<char>,
    base: Seq<char>,
    separator: Seq<char>,
) -> Seq<char> {
    match path_diff(abs, cwd) {
        Some(r) => relative_id_path(r, separator),
        None => spec_dot_path(base, separator),
    }
}

/// The path part of an ID relative to the project root, else to the working
/// directory.
pub open spec fn root_relative_prefix(
    abs: Seq<char>,
    root: Option<Seq<char>>,
    cwd: Seq<char>,
    base: Seq<char>,
    separator: Seq<char>,
) -> Seq<char> {
    match root {
        Some(r) => match strip_prefix(abs, r) {
            Some(rel) => relative_id_path(rel, separator),
            None => cwd_relative_prefix(abs, cwd, base, separator),
        },
        None => cwd_relative_prefix(abs, cwd, base, separator),
    }
}

/// The path part of an ID for `filename`, before `remove_prefix` applies.
///
/// With `relative_to`, the file is taken relative to it; a file outside it
/// (its relative path starts with `..`) is taken relative to the project root
/// or the working directory instead. Without `relative_to`, the project root
/// comes first, then the working directory.
pub open spec fn path_prefix(
    filename: Seq<char>,
    relative_to: Option<Seq<char>>,
    cwd: Seq<char>,
    root: Option<Seq<char>>,
    separator: Seq<char>,
) -> Seq<char> {
    let abs = make_absolute(filename, cwd);
    let base = strip_extension(filename);
    match relative_to {
        Some(rt) => match path_diff(abs, make_absolute(rt, cwd)) {
            Some(rp) => if starts_with(rp, seq!['.', '.']) {
                root_relative_prefix(abs, root, cwd, base, separator)
            } else {
                relative_id_path(rp, separator)
            },
            None => match root {
                Some(r) => match strip_prefix(abs, r) {
                    Some(rel) => relative_id_path(rel, separator),
                    None => spec_dot_path(base, separator),
                },
                None => spec_dot_path(base, separator),
            },
        },
        None => root_relative_prefix(abs, root, cwd, base, separator),
    }
}

/// A `remove_prefix` string holding `.*`, `.+`, `[` or `(` is a regular expression.
pub open spec fn looks_like_regex(s: Seq<char>) -> bool {
    contains_seq(s, seq!['.', '*']) || contains_seq(s, seq!['.', '+']) || contains_seq(s, seq!['['])
        || contains_seq(s, seq!['('])
}

/// `suffix` behind `prefix` and the separator, or `suffix` alone.
pub open spec fn with_suffix(prefix: Seq<char>, separator: Seq<char>, suffix: Seq<char>) -> Seq<
    char,
> {
    if prefix.len() == 0 {
        suffix
    } else {
        prefix + separator + suffix
    }
}

/// The path part of the state's ID before `remove_prefix` applies.
pub open spec fn state_path_prefix(state: CoreState) -> Seq<char> {
    path_prefix(
        state.filename@,
        opt_view(state.opts.relative_to),
        state.env.cwd@,
        opt_view(state.env.project_root),
        state.opts.separator@,
    )
}

/// The dotted path after a regular-expression `remove_prefix`: matches removed,
/// surrounding `/` trimmed.
pub open spec fn regex_stripped(pattern: Seq<char>, prefix: Seq<char>, separator: Seq<char>) -> Seq<
    char,
> {
    trim_end_char(
        trim_start_char(regex_remove_matches(pattern, replace_all(prefix, separator, seq!['/'])), '/'),
        '/',
    )
}

/// `suffix` prefixed with the path part of the state's file.
pub open spec fn spec_add_prefix(state: CoreState, suffix: Seq<char>) -> Seq<char> {
    let sep = state.opts.separator@;
    let prefix = state_path_prefix(state);
    match state.opts.remove_prefix {
        Some(RemovePrefix::Boolean(true)) => suffix,
        Some(RemovePrefix::String(s)) => if looks_like_regex(s@) {
            if !regex_compiles(s@) {
                suffix
            } else {
                let t = regex_stripped(s@, prefix, sep);
                if t.len() == 0 {
                    suffix
                } else {
                    with_suffix(spec_dot_path(t, sep), sep, suffix)
                }
            }
        } else {
            with_suffix(spec_dot_path_replace(prefix, s@, sep), sep, suffix)
        },
        _ => with_suffix(prefix, sep, suffix),
    }
}

/// Converts path separators to the specified separator (e.g. dots).
pub fn dot_path(path: &str, separator: &str) -> (r: String)
    ensures
        r@ == spec_dot_path(path@, separator@),
{
    let p = chars_of(path);
    let s = chars_of(separator);
    string_of(&dot_path_chars(&p, &s))
}

/// `path` with its path separators replaced by `separator`.
pub fn dot_path_chars(path: &[char], separator: &[char]) -> (r: Vec<char>)
    ensures
        r@ == spec_dot_path(path@, separator@),
{
    replace_char_exec(path, '/', separator)
}

/// Removes a prefix from a dot-separated path.
pub fn dot_path_replace(formatted: &str, remove_prefix: &str, separator: &str) -> (r: String)
    ensures
        r@ == spec_dot_path_replace(formatted@, remove_prefix@, separator@),
{
    let f = chars_of(formatted);
    let p = chars_of(remove_prefix);
    let s = chars_of(separator);
    string_of(&dot_path_replace_chars(&f, &p, &s))
}

/// The dotted `formatted` without the dotted `remove_prefix` at its start.
pub fn dot_path_replace_chars(formatted: &[char], remove_prefix: &[char], separator: &[char]) -> (r:
    Vec<char>)
    ensures
        r@ == spec_dot_path_replace(formatted@, remove_prefix@, separator@),
{
    let formatted_path = dot_path_chars(formatted, separator);
    let normalized = dot_path_chars(remove_prefix, separator);
    let prefix = if ends_with_exec(&normalized, separator) {
        slice_of(&normalized, 0, normalized.len() - separator.len())
    } else {
        normalized
    };
    assert(prefix@ == without_trailing(spec_dot_path(remove_prefix@, separator@), separator@));
    if starts_with_exec(&formatted_path, &prefix) {
        let remaining = slice_of(&formatted_path, prefix.len(), formatted_path.len());
        if starts_with_exec(&remaining, separator) {
            slice_of(&remaining, separator.len(), remaining.len())
        } else {
            remaining
        }
    } else {
        formatted_path
    }
}

/// `s` up to its last `.`.
pub fn strip_extension_exec(s: &[char]) -> (r: Vec<char>)
    ensures
        r@ == strip_extension(s@),
{
    match rfind_char_exec(s, '.') {
        Some(i) => slice_of(s, 0, i),
        None => slice_of(s, 0, s.len()),
    }
}

/// `p`, read from the working directory `cwd`.
pub fn make_absolute_exec(p: &[char], cwd: &[char]) -> (r: Vec<char>)
    ensures
        r@ == make_absolute(p@, cwd@),
{
    if is_absolute_exec(p) {
        slice_of(p, 0, p.len())
    } else {
        join_exec(cwd, p)
    }
}

/// A relative file path as the path part of an ID.
pub fn relative_id_path_exec(rel: &[char], separator: &[char]) -> (r: Vec<char>)
    ensures
        r@ == relative_id_path(rel@, separator@),
{
    let s = strip_extension_exec(rel);
    let s = if s.len() > 0 && (s[0] == '/' || s[0] == '\\') {
        slice_of(&s, 1, s.len())
    } else {
        s
    };
    dot_path_chars(&s, separator)
}

/// The relative path from `base` to `path`.
fn diff_chars(path: &[char], base: &[char]) -> (r: Option<Vec<char>>)
    ensures
        r matches Some(v) ==> path_diff(path@, base@) == Some(v@),
        r is None ==> path_diff(path@, base@) is None,
{
    let p = string_of(path);
    let b = string_of(base);
    match diff_paths_exec(p.as_str(), b.as_str()) {
        Some(s) => Some(chars_of(s.as_str())),
        None => None,
    }
}

/// The path part of an ID relative to the working directory.
fn cwd_relative_prefix_exec(abs: &[char], cwd: &[char], base: &[char], separator: &[char]) -> (r:
    Vec<char>)
    ensures
        r@ == cwd_relative_prefix(abs@, cwd@, base@, separator@),
{
    match diff_chars(abs, cwd) {
        Some(rel) => relative_id_path_exec(&rel, separator),
        None => dot_path_chars(base, separator),
    }
}

/// The path part of an ID relative to the project root, else the working directory.
fn root_relative_prefix_exec(
    abs: &[char],
    root: &Option<String>,
    cwd: &[char],
    base: &[char],
    separator: &[char],
) -> (r: Vec<char>)
    ensures
        r@ == root_relative_prefix(abs@, opt_view(*root), cwd@, base@, separator@),
{
    match root {
        Some(root) => {
            let root = chars_of(root.as_str());
            match strip_prefix_exec(abs, &root) {
                Some(rel) => relative_id_path_exec(&rel, separator),
                None => cwd_relative_prefix_exec(abs, cwd, base, separator),
            }
        },
        None => cwd_relative_prefix_exec(abs, cwd, base, separator),
    }
}

/// The path part of an ID before `remove_prefix` applies.
fn path_prefix_exec(
    filename: &[char],
    relative_to: &Option<String>,
    cwd: &[char],
    root: &Option<String>,
    separator: &[char],
) -> (r: Vec<char>)
    ensures
        r@ == path_prefix(filename@, opt_view(*relative_to), cwd@, opt_view(*root), separator@),
{
    let abs = make_absolute_exec(filename, cwd);
    let base = strip_extension_exec(filename);
    match relative_to {
        Some(rt) => {
            let rt = chars_of(rt.as_str());
            let rt_abs = make_absolute_exec(&rt, cwd);
            match diff_chars(&abs, &rt_abs) {
                Some(rp) => {
                    if starts_with_exec(&rp, &chars2('.', '.')) {
                        root_relative_prefix_exec(&abs, root, cwd, &base, separator)
                    } else {
                        relative_id_path_exec(&rp, separator)
                    }
                },
                None => match root {
                    Some(r) => {
                        let r = chars_of(r.as_str());
                        match strip_prefix_exec(&abs, &r) {
                            Some(rel) => relative_id_path_exec(&rel, separator),
                            None => dot_path_chars(&base, separator),
                        }
                    },
                    None => dot_path_chars(&base, separator),
                },
            }
        },
        None => root_relative_prefix_exec(&abs, root, cwd, &base, separator),
    }
}

/// Whether a `remove_prefix` string is a regular expression.
pub fn looks_like_regex_exec(s: &[char]) -> (r: bool)
    ensures
        r == looks_like_regex(s@),
{
    contains_exec(s, &chars2('.', '*')) || contains_exec(s, &chars2('.', '+')) || contains_exec(
        s,
        &chars1('['),
    ) || contains_exec(s, &chars1('('))
}

/// `suffix` behind `prefix` and the separator, or `suffix` alone.
pub fn with_suffix_exec(prefix: &[char], separator: &[char], suffix: &[char]) -> (r: Vec<char>)
    ensures
        r@ == with_suffix(prefix@, separator@, suffix@),
{
    if prefix.len() == 0 {
        slice_of(suffix, 0, suffix.len())
    } else {
        let mut r = concat(prefix, separator);
        push_all(&mut r, suffix);
        r
    }
}

/// Adds a prefix for message IDs based on file path and options.
pub fn add_prefix(state: &CoreState, suffix: &str) -> (r: String)
    ensures
        r@ == spec_add_prefix(*state, suffix@),
        state.opts.remove_prefix == Some(RemovePrefix::Boolean(true)) ==> r@ == suffix@,
{
    if let Some(RemovePrefix::Boolean(true)) = &state.opts.remove_prefix {
        return owned(suffix);
    }
    let sep = chars_of(state.opts.separator.as_str());
    let suffix_chars = chars_of(suffix);
    let filename = chars_of(state.filename.as_str());
    let cwd = chars_of(state.env.cwd.as_str());
    let prefix = path_prefix_exec(&filename, &state.opts.relative_to, &cwd, &state.env.project_root, &sep);
    let r = match &state.opts.remove_prefix {
        Some(RemovePrefix::String(s)) => {
            let s_chars = chars_of(s.as_str());
            if looks_like_regex_exec(&s_chars) {
                match PrefixPattern::compile(s.as_str()) {
                    None => suffix_chars,
                    Some(pattern) => {
                        let slashed = replace_all_exec(&prefix, &sep, &chars1('/'));
                        let removed = pattern.remove_matches(string_of(&slashed).as_str());
                        let removed = chars_of(removed.as_str());
                        let t = trim_end_char_exec(&trim_start_char_exec(&removed, '/'), '/');
                        if t.len() == 0 {
                            suffix_chars
                        } else {
                            with_suffix_exec(&dot_path_chars(&t, &sep), &sep, &suffix_chars)
                        }
                    },
                }
            } else {
                let p = dot_path_replace_chars(&prefix, &s_chars, &sep);
                with_suffix_exec(&p, &sep, &suffix_chars)
            }
        },
        _ => with_suffix_exec(&prefix, &sep, &suffix_chars),
    };
    string_of(&r)
}

/// A relative path read from an absolute directory is absolute.
proof fn lemma_join_absolute(cwd: Seq<char>, rel: Seq<char>)
    requires
        is_absolute(cwd),
    ensures
        is_absolute(join(cwd, rel)),
{
    if !is_absolute(rel) {
        if cwd.last() == '/' {
            assert((cwd + rel)[0] == cwd[0]);
        } else {
            assert((cwd + seq!['/'] + rel)[0] == cwd[0]);
        }
    }
}

/// Law: a file named relative to the working directory and the same file named
/// by its absolute path get the same ID prefix, as long as a relative path
/// leads from the working directory (and from the `relative_to` directory) to
/// the file.
pub proof fn law_add_prefix_absolute_relative(
    state: CoreState,
    abs_state: CoreState,
    suffix: Seq<char>,
)
    requires
        is_absolute(state.env.cwd@),
        !is_absolute(state.filename@),
        abs_state.filename@ == join(state.env.cwd@, state.filename@),
        abs_state.opts == state.opts,
        abs_state.env == state.env,
        path_diff(join(state.env.cwd@, state.filename@), state.env.cwd@) is Some,
        state.opts.relative_to matches Some(rt) ==> path_diff(
            join(state.env.cwd@, state.filename@),
            make_absolute(rt@, state.env.cwd@),
        ) is Some,
    ensures
        spec_add_prefix(abs_state, suffix) == spec_add_prefix(state, suffix),
{
    let cwd = state.env.cwd@;
    let f = state.filename@;
    lemma_join_absolute(cwd, f);
    let abs = join(cwd, f);
    assert(make_absolute(abs, cwd) == abs);
    assert(make_absolute(f, cwd) == abs);
    assert(state_path_prefix(abs_state) == state_path_prefix(state));
}

/// Law: dotting a path replaces its path separators and nothing else. With a
/// one-character separator `c` other than `/` that does not occur in the
/// path, the dotted path is as long as the path, holds no `/`, and turning
/// each `c` back into `/` gives the path again.
pub proof fn law_dot_path_round_trip(path: Seq<char>, c: char)
    requires
        c != '/',
        !path.contains(c),
    ensures
        spec_dot_path(path, seq![c]).len() == path.len(),
        !spec_dot_path(path, seq![c]).contains('/'),
        replace_char(spec_dot_path(path, seq![c]), c, seq!['/']) == path,
    decreases path.len(),
{
    if path.len() > 0 {
        let p = path.drop_last();
        assert(!p.contains(c)) by {
            if p.contains(c) {
                let k = choose|k: int| 0 <= k < p.len() && p[k] == c;
                assert(path[k] == c);
            }
        }
        law_dot_path_round_trip(p, c);
        let d = spec_dot_path(p, seq![c]);
        let last = if path.last() == '/' { seq![c] } else { seq![path.last()] };
        assert(spec_dot_path(path, seq![c]) == d + last);
        assert(path.last() != c) by {
            assert(path[path.len() - 1] == path.last());
        }
        assert((d + last).drop_last() =~= d);
        assert((d + last).last() == last[0]);
        assert(replace_char(d + last, c, seq!['/']) =~= path) by {
            assert(path =~= p.push(path.last()));
        }
        assert(!(d + last).contains('/')) by {
            if (d + last).contains('/') {
                let k = choose|k: int| 0 <= k < (d + last).len() && (d + last)[k] == '/';
                if k < d.len() {
                    assert(d[k] == '/');
                }
            }
        }
    }
}

/// The path part of an ID does not depend on `hash_id`.
pub proof fn lemma_add_prefix_ignores_hash_id(state: CoreState, plain: CoreState, suffix: Seq<char>)
    requires
        plain.filename == state.filename,
        plain.env == state.env,
        plain.opts.remove_prefix == state.opts.remove_prefix,
        plain.opts.module_source_name == state.opts.module_source_name,
        plain.opts.separator == state.opts.separator,
        plain.opts.relative_to == state.opts.relative_to,
        plain.opts.hash_algorithm == state.opts.hash_algorithm,
        plain.opts.extract_source_location == state.opts.extract_source_location,
        plain.opts.output_mode == state.opts.output_mode,
    ensures
        spec_add_prefix(plain, suffix) == spec_add_prefix(state, suffix),
{
}

/// Law: an ID with its path part ends with what the path part was added to.
pub proof fn law_add_prefix_keeps_suffix(state: CoreState, suffix: Seq<char>)
    ensures
        spec_add_prefix(state, suffix).len() >= suffix.len(),
        spec_add_prefix(state, suffix).skip(spec_add_prefix(state, suffix).len() - suffix.len()) == suffix,
{
    let r = spec_add_prefix(state, suffix);
    assert forall|p: Seq<char>, sep: Seq<char>| #![trigger with_suffix(p, sep, suffix)]
        with_suffix(p, sep, suffix).skip(with_suffix(p, sep, suffix).len() - suffix.len()) =~= suffix by {
        if p.len() == 0 {
            assert(suffix.skip(0) =~= suffix);
        }
    }
    assert(suffix.skip(0) =~= suffix);
}

/// The last `.` of `p`, a `.` and then `e` (which holds no `.`) is the `.`
/// between them.
proof fn lemma_rfind_last_dot(p: Seq<char>, e: Seq<char>)
    requires
        !e.contains('.'),
    ensures
        rfind_char(p + seq!['.'] + e, '.') == Some(p.len() as int),
    decreases e.len(),
{
    let s = p + seq!['.'] + e;
    if e.len() == 0 {
        assert(s.last() == '.');
    } else {
        assert(e.last() != '.') by {
            assert(e[e.len() - 1] == e.last());
        }
        assert(!e.drop_last().contains('.')) by {
            if e.drop_last().contains('.') {
                let k = choose|k: int| 0 <= k < e.drop_last().len() && e.drop_last()[k] == '.';
                assert(e[k] == '.');
            }
        }
        assert(s.drop_last() =~= p + seq!['.'] + e.drop_last());
        assert(s.last() == e.last());
        lemma_rfind_last_dot(p, e.drop_last());
    }
}

/// A sequence without `c` has no last `c`.
proof fn lemma_rfind_absent(s: Seq<char>, c: char)
    requires
        !s.contains(c),
    ensures
        rfind_char(s, c) is None,
    decreases s.len(),
{
    if s.len() > 0 {
        assert(s.last() != c) by {
            assert(s[s.len() - 1] == s.last());
        }
        assert(!s.drop_last().contains(c)) by {
            if s.drop_last().contains(c) {
                let k = choose|k: int| 0 <= k < s.drop_last().len() && s.drop_last()[k] == c;
                assert(s[k] == c);
            }
        }
        lemma_rfind_absent(s.drop_last(), c);
    }
}

/// Law: stripping the extension removes exactly the text from the last `.`
/// on: `p`, a `.` and an extension `e` without `.` becomes `p` (so
/// `App.messages.js` keeps `App.messages`), and a name without `.` stays whole.
pub proof fn law_strip_extension_removes_last_extension(p: Seq<char>, e: Seq<char>, plain: Seq<char>)
    requires
        !e.contains('.'),
        !plain.contains('.'),
    ensures
        strip_extension(p + seq!['.'] + e) == p,
        strip_extension(plain) == plain,
{
    lemma_rfind_last_dot(p, e);
    assert((p + seq!['.'] + e).take(p.len() as int) =~= p);
    lemma_rfind_absent(plain, '.');
}

} // verus!





//! Extracted messages of the command-line extractor.

use vstd::prelude::*;
use crate::paths::{diff_paths_exec, file_extension, file_extension_exec, path_diff};
use crate::text::{chars_eq, chars_of, owned, push_all, str_eq, string_of};
use crate::types::{copy_options, is_react_component_name, opt_seq, CoreOptions, CoreState, MessageSpec, PathEnv, TransformedMessageData};
use crate::ast_call::{
    callee_ident, define_props_hashable, define_results, is_member_format_message, message_object_hashable,
    spec_message_object,
};
use crate::ast_import::{aliases_of, imports_from, names_of, ImportVisitor};
use crate::ast_jsx::{jsx_message_hashable, spec_jsx_message};
use crate::ast_vars::declared_object;
use crate::cli_visitors::{optional_message, passed_object, CallExpressionVisitor, JSXVisitor};
use crate::gen_id::{fits_hash, HashScheme};
use crate::hashing::hashable;
use crate::parse::{parse_module, parsed_module};
use crate::names::alias_lookup;
use crate::syntax::{JsCallExpr, JsItem, JsModule, JsObjectLit, JsxElement, JsxElementName};

verus! {

/// An extracted message.
#[derive(Debug, Clone, PartialEq, Eq)]
pub struct ExtractedMessage {
    pub id: String,
    pub default_message: Option<String>,
    pub description: Option<String>,
    /// The source file, relative to the working directory.
    pub file: Option<String>,
}

/// The path that leads from `cwd` to `absolute_path`, or the path itself when
/// there is none.
pub open spec fn spec_relative_to_cwd(absolute_path: Seq<char>, cwd: Seq<char>) -> Seq<char> {
    match path_diff(absolute_path, cwd) {
        Some(p) => p,
        None => absolute_path,
    }
}

/// The path that leads from the working directory `cwd` to `absolute_path`,
/// or the path itself when there is none.
pub fn relative_to_cwd(absolute_path: &str, cwd: &str) -> (r: String)
    ensures
        r@ == spec_relative_to_cwd(absolute_path@, cwd@),
{
    match diff_paths_exec(absolute_path, cwd) {
        Some(p) => p,
        None => owned(absolute_path),
    }
}

/// An analyzed message as an extracted one, with its source file when
/// `include_source_location` asks for it.
pub fn to_extracted_message(
    transformed: &TransformedMessageData,
    filename: &str,
    include_source_location: bool,
    cwd: &str,
) -> (r: ExtractedMessage)
    ensures
        r.id@ == transformed.id@,
        opt_seq(r.default_message) == opt_seq(transformed.default_message),
        opt_seq(r.description) == opt_seq(transformed.description),
        include_source_location ==> (r.file matches Some(f) && f@ == spec_relative_to_cwd(filename@, cwd@)),
        !include_source_location ==> r.file is None,
{
    ExtractedMessage {
        id: owned(transformed.id.as_str()),
        default_message: copy_opt(&transformed.default_message),
        description: copy_opt(&transformed.description),
        file: if include_source_location {
            Some(relative_to_cwd(filename, cwd))
        } else {
            None
        },
    }
}

/// A copy of an optional string.
fn copy_opt(o: &Option<String>) -> (r: Option<String>)
    ensures
        opt_seq(r) == opt_seq(*o),
{
    match o {
        Some(s) => Some(owned(s.as_str())),
        None => None,
    }
}

/// The dialect a source file is parsed in.
#[derive(Debug, Clone, Copy, PartialEq, Eq)]
pub enum SyntaxKind {
    /// TypeScript, with JSX when `tsx`.
    Typescript { tsx: bool },
    /// ECMAScript, with JSX when `jsx`.
    Es { jsx: bool },
}

/// The dialect of a file: `.tsx` is TypeScript with JSX, `.ts` and `.mts`
/// TypeScript, anything else ECMAScript with JSX.
pub open spec fn spec_detect_syntax(filename: Seq<char>) -> SyntaxKind {
    match file_extension(filename) {
        Some(ext) => if ext == "tsx"@ {
            SyntaxKind::Typescript { tsx: true }
        } else if ext == "ts"@ || ext == "mts"@ {
            SyntaxKind::Typescript { tsx: false }
        } else {
            SyntaxKind::Es { jsx: true }
        },
        None => SyntaxKind::Es { jsx: true },
    }
}

/// The dialect a file is parsed in, chosen by its extension.
pub fn detect_syntax(filename: &str) -> (r: SyntaxKind)
    ensures
        r == spec_detect_syntax(filename@),
{
    match file_extension_exec(&chars_of(filename)) {
        Some(ext) => {
            if chars_eq(&ext, &chars_of("tsx")) {
                SyntaxKind::Typescript { tsx: true }
            } else if chars_eq(&ext, &chars_of("ts")) || chars_eq(&ext, &chars_of("mts")) {
                SyntaxKind::Typescript { tsx: false }
            } else {
                SyntaxKind::Es { jsx: true }
            }
        },
        None => SyntaxKind::Es { jsx: true },
    }
}

/// The errors joined by line breaks.
pub open spec fn join_lines(errors: Seq<Seq<char>>) -> Seq<char>
    decreases errors.len(),
{
    if errors.len() == 0 {
        Seq::empty()
    } else if errors.len() == 1 {
        errors[0]
    } else {
        join_lines(errors.drop_last()) + seq!['\n'] + errors.last()
    }
}

/// The views of a list of strings.
pub open spec fn string_list(v: Seq<String>) -> Seq<Seq<char>> {
    v.map_values(|s: String| s@)
}

/// The views of a list of messages.
pub open spec fn message_list(v: Seq<TransformedMessageData>) -> Seq<MessageSpec> {
    v.map_values(|t: TransformedMessageData| t@)
}

/// Collects the messages and errors of one file.
pub struct MessageExtractorVisitor {
    pub state: CoreState,
    pub filename: String,
    pub messages: Vec<TransformedMessageData>,
    pub errors: Vec<String>,
}

impl MessageExtractorVisitor {
    pub fn new(filename: String, options: CoreOptions, env: PathEnv) -> (r: Self)
        ensures
            r.state.filename@ == filename@,
            r.state.opts == options,
            r.state.env == env,
            r.filename@ == filename@,
            r.messages@.len() == 0,
            r.errors@.len() == 0,
    {
        let state = CoreState::new(owned(filename.as_str()), options, env);
        MessageExtractorVisitor { state, filename, messages: Vec::new(), errors: Vec::new() }
    }

    /// Adds what one pass over the module found.
    pub fn record(&mut self, messages: Vec<TransformedMessageData>, errors: Vec<String>)
        ensures
            final(self).state == old(self).state,
            final(self).filename == old(self).filename,
            final(self).messages@ == old(self).messages@ + messages@,
            final(self).errors@ == old(self).errors@ + errors@,
    {
        let mut messages = messages;
        let mut errors = errors;
        self.messages.append(&mut messages);
        self.errors.append(&mut errors);
    }

    /// The extracted messages, in the order they were found; the errors joined
    /// by line breaks when there are any.
    pub fn into_result(self) -> (r: Result<Vec<ExtractedMessage>, String>)
        ensures
            self.errors@.len() > 0 <==> r is Err,
            r matches Err(e) ==> e@ == join_lines(string_list(self.errors@)),
            r matches Ok(v) ==> {
                &&& v.len() == self.messages.len()
                &&& forall|i: int|
                    0 <= i < v.len() ==> {
                        let m = #[trigger] v[i];
                        &&& m.id@ == self.messages[i].id@
                        &&& opt_seq(m.default_message) == opt_seq(self.messages[i].default_message)
                        &&& opt_seq(m.description) == opt_seq(self.messages[i].description)
                        &&& self.state.opts.extract_source_location ==> (m.file matches Some(f) && f@
                            == spec_relative_to_cwd(self.filename@, self.state.env.cwd@))
                        &&& !self.state.opts.extract_source_location ==> m.file is None
                    }
            },
    {
        if self.errors.len() > 0 {
            let mut joined: Vec<char> = Vec::new();
            let mut i: usize = 0;
            while i < self.errors.len()
                invariant
                    i <= self.errors.len(),
                    joined@ == join_lines(string_list(self.errors@.take(i as int))),
                decreases self.errors.len() - i,
            {
                assert(string_list(self.errors@.take(i + 1)).drop_last() =~= string_list(self.errors@.take(i as int)));
                assert(string_list(self.errors@.take(i + 1)).last() == self.errors@[i as int]@);
                if i > 0 {
                    joined.push('\n');
                } else {
                    assert(string_list(self.errors@.take(1)) =~= seq![self.errors@[0]@]);
                }
                push_all(&mut joined, &chars_of(self.errors[i].as_str()));
                i = i + 1;
            }
            assert(self.errors@.take(i as int) =~= self.errors@);
            return Err(string_of(&joined));
        }
        let with_location = self.state.opts.extract_source_location;
        let mut out: Vec<ExtractedMessage> = Vec::new();
        let mut i: usize = 0;
        while i < self.messages.len()
            invariant
                i <= self.messages.len(),
                with_location == self.state.opts.extract_source_location,
                out.len() == i,
                forall|k: int|
                    0 <= k < i ==> {
                        let m = #[trigger] out@[k];
                        &&& m.id@ == self.messages[k].id@
                        &&& opt_seq(m.default_message) == opt_seq(self.messages[k].default_message)
                        &&& opt_seq(m.description) == opt_seq(self.messages[k].description)
                        &&& with_location ==> (m.file matches Some(f) && f@ == spec_relative_to_cwd(
                            self.filename@,
                            self.state.env.cwd@,
                        ))
                        &&& !with_location ==> m.file is None
                    },
            decreases self.messages.len() - i,
        {
            let m = to_extracted_message(
                &self.messages[i],
                self.filename.as_str(),
                with_location,
                self.state.env.cwd.as_str(),
            );
            out.push(m);
            i = i + 1;
        }
        Ok(out)
    }
}

/// Some message of `v` has the ID `id`.
pub open spec fn has_id(v: Seq<ExtractedMessage>, id: Seq<char>) -> bool {
    exists|j: int| 0 <= j < v.len() && #[trigger] v[j].id@ == id
}

/// The messages without repeated IDs: the first message with each ID stays,
/// in order.
pub open spec fn spec_dedupe(v: Seq<ExtractedMessage>) -> Seq<ExtractedMessage>
    decreases v.len(),
{
    if v.len() == 0 {
        Seq::empty()
    } else {
        let d = spec_dedupe(v.drop_last());
        if has_id(d, v.last().id@) {
            d
        } else {
            d.push(v.last())
        }
    }
}

/// Whether some message of `v` has the ID `id`.
fn has_id_exec(v: &Vec<ExtractedMessage>, id: &str) -> (r: bool)
    ensures
        r == has_id(v@, id@),
{
    let mut i: usize = 0;
    while i < v.len()
        invariant
            i <= v.len(),
            forall|j: int| 0 <= j < i ==> #[trigger] v@[j].id@ != id@,
        decreases v.len() - i,
    {
        if str_eq(v[i].id.as_str(), id) {
            return true;
        }
        i = i + 1;
    }
    false
}

/// The messages without repeated IDs: the first message with each ID is kept,
/// in order.
pub fn dedupe_messages(messages: Vec<ExtractedMessage>) -> (r: Vec<ExtractedMessage>)
    ensures
        r@ == spec_dedupe(messages@),
{
    let ghost all = messages@;
    let mut rest = messages;
    let mut out: Vec<ExtractedMessage> = Vec::new();
    let n = rest.len();
    let mut i: usize = 0;
    assert(all.take(0) =~= Seq::<ExtractedMessage>::empty());
    while i < n
        invariant
            n == all.len(),
            i <= n,
            rest@ == all.skip(i as int),
            out@ == spec_dedupe(all.take(i as int)),
        decreases n - i,
    {
        let m = rest.remove(0);
        assert(m == all[i as int]);
        assert(rest@ =~= all.skip(i + 1));
        assert(all.take(i + 1).drop_last() =~= all.take(i as int));
        assert(all.take(i + 1).last() == all[i as int]);
        if !has_id_exec(&out, m.id.as_str()) {
            out.push(m);
        }
        i = i + 1;
    }
    assert(all.take(i as int) =~= all);
    out
}

/// After deduplication no two messages share an ID, every ID of the input is
/// still there, and each message kept is the first input message with its ID.
pub proof fn law_dedupe(v: Seq<ExtractedMessage>)
    ensures
        forall|i: int, j: int|
            0 <= i < j < spec_dedupe(v).len() ==> #[trigger] spec_dedupe(v)[i].id@ != #[trigger] spec_dedupe(v)[j].id@,
        forall|i: int| 0 <= i < v.len() ==> has_id(spec_dedupe(v), #[trigger] v[i].id@),
        forall|k: int|
            0 <= k < spec_dedupe(v).len() ==> exists|i: int|
                0 <= i < v.len() && v[i] == #[trigger] spec_dedupe(v)[k] && forall|j: int|
                    0 <= j < i ==> #[trigger] v[j].id@ != v[i].id@,
    decreases v.len(),
{
    if v.len() > 0 {
        let p = v.drop_last();
        law_dedupe(p);
        let d = spec_dedupe(p);
        let last = v.last();
        assert forall|i: int| 0 <= i < v.len() implies has_id(spec_dedupe(v), #[trigger] v[i].id@) by {
            if i < v.len() - 1 {
                assert(v[i] == p[i]);
                assert(has_id(d, p[i].id@));
                let w = choose|j: int| 0 <= j < d.len() && #[trigger] d[j].id@ == p[i].id@;
                if !has_id(d, last.id@) {
                    assert(spec_dedupe(v)[w] == d[w]);
                }
                assert(spec_dedupe(v)[w].id@ == v[i].id@);
            } else {
                if has_id(d, last.id@) {
                } else {
                    assert(spec_dedupe(v)[d.len() as int] == last);
                }
            }
        }
        assert forall|k: int| 0 <= k < spec_dedupe(v).len() implies exists|i: int|
            0 <= i < v.len() && v[i] == #[trigger] spec_dedupe(v)[k] && forall|j: int|
                0 <= j < i ==> #[trigger] v[j].id@ != v[i].id@ by {
            if k < d.len() {
                let i = choose|i: int|
                    0 <= i < p.len() && p[i] == #[trigger] d[k] && forall|j: int| 0 <= j < i ==> #[trigger] p[j].id@ != p[i].id@;
                assert(v[i] == p[i]);
                assert(spec_dedupe(v)[k] == d[k]);
                assert(forall|j: int| 0 <= j < i ==> #[trigger] v[j].id@ != v[i].id@) by {
                    assert forall|j: int| 0 <= j < i implies #[trigger] v[j].id@ != v[i].id@ by {
                        assert(v[j] == p[j]);
                    }
                }
            } else {
                let i = v.len() - 1;
                assert(spec_dedupe(v)[k] == last);
                assert forall|j: int| 0 <= j < i implies #[trigger] v[j].id@ != v[i].id@ by {
                    assert(v[j] == p[j]);
                    if v[j].id@ == last.id@ {
                        assert(has_id(d, p[j].id@));
                    }
                }
            }
        }
    }
}

} // verus!

verus! {

/// The names that the imports among `items` bring in from the module `source`.
pub open spec fn import_names(items: Seq<JsItem>, source: Seq<char>) -> Set<Seq<char>>
    decreases items.len(),
{
    if items.len() == 0 {
        Set::empty()
    } else {
        import_names(items.drop_last(), source).union(
            match items.last() {
                JsItem::Import(d) => if imports_from(d.src.value@, source) {
                    names_of(d.specifiers@).to_set()
                } else {
                    Set::empty()
                },
                _ => Set::empty(),
            },
        )
    }
}

/// The aliases that the imports among `items` bring in from the module
/// `source`, oldest first.
pub open spec fn import_aliases(items: Seq<JsItem>, source: Seq<char>) -> Seq<(Seq<char>, Seq<char>)>
    decreases items.len(),
{
    if items.len() == 0 {
        Seq::empty()
    } else {
        import_aliases(items.drop_last(), source) + match items.last() {
            JsItem::Import(d) => if imports_from(d.src.value@, source) {
                aliases_of(d.specifiers@)
            } else {
                Seq::empty()
            },
            _ => Seq::empty(),
        }
    }
}

/// The element named `name` is a React Intl component, given the imported
/// names and aliases.
pub open spec fn component_in(names: Set<Seq<char>>, aliases: Seq<(Seq<char>, Seq<char>)>, name: Seq<char>) -> bool {
    let component = match alias_lookup(aliases, name) {
        Some(original) => original,
        None => name,
    };
    is_react_component_name(component) && names.contains(name)
}

/// The imported name that the callee stands for, given the imported names and
/// aliases.
pub open spec fn callee_in(names: Set<Seq<char>>, aliases: Seq<(Seq<char>, Seq<char>)>, call: JsCallExpr) -> Option<Seq<char>> {
    match callee_ident(call) {
        Some(n) => if names.contains(n) {
            match alias_lookup(aliases, n) {
                Some(original) => Some(original),
                None => Some(n),
            }
        } else {
            None
        },
        None => None,
    }
}

/// The call is a `formatMessage` call, given the imported names and aliases.
pub open spec fn format_call_in(names: Set<Seq<char>>, aliases: Seq<(Seq<char>, Seq<char>)>, call: JsCallExpr) -> bool {
    is_member_format_message(call) || callee_in(names, aliases, call) == Some("formatMessage"@)
}

/// The call is a `defineMessages` call, given the imported names and aliases.
pub open spec fn define_call_in(names: Set<Seq<char>>, aliases: Seq<(Seq<char>, Seq<char>)>, call: JsCallExpr) -> bool {
    callee_in(names, aliases, call) == Some("defineMessages"@)
}

/// The message recorded for an element.
pub open spec fn element_message_in(
    names: Set<Seq<char>>,
    aliases: Seq<(Seq<char>, Seq<char>)>,
    element: JsxElement,
    state: CoreState,
) -> Option<MessageSpec> {
    match element.opening.name {
        JsxElementName::Ident(n) => if component_in(names, aliases, n.sym@) {
            match spec_jsx_message(element, state, HashScheme::Base64) {
                Some((m, _)) => Some(m),
                None => None,
            }
        } else {
            None
        },
        _ => None,
    }
}

/// The ID recorded for an element can be hashed.
pub open spec fn element_ok(
    names: Set<Seq<char>>,
    aliases: Seq<(Seq<char>, Seq<char>)>,
    element: JsxElement,
    state: CoreState,
) -> bool {
    match element.opening.name {
        JsxElementName::Ident(n) => component_in(names, aliases, n.sym@) ==> jsx_message_hashable(
            element,
            state,
            HashScheme::Base64,
        ),
        _ => true,
    }
}

/// The messages recorded for a call, given the variables declared before it.
pub open spec fn call_messages_in(
    names: Set<Seq<char>>,
    aliases: Seq<(Seq<char>, Seq<char>)>,
    vars: Seq<(Seq<char>, JsObjectLit)>,
    call: JsCallExpr,
    state: CoreState,
) -> Seq<MessageSpec> {
    (if format_call_in(names, aliases, call) {
        match passed_object(vars, call) {
            Some(o) => match spec_message_object(o, state, None, HashScheme::Base64) {
                Some((m, _)) => seq![m],
                None => Seq::empty(),
            },
            None => Seq::empty(),
        }
    } else {
        Seq::empty()
    }) + (if define_call_in(names, aliases, call) {
        match passed_object(vars, call) {
            Some(o) => define_results(o.props@, state, HashScheme::Base64).map_values(
                |x: (Seq<char>, MessageSpec, bool)| x.1,
            ),
            None => Seq::empty(),
        }
    } else {
        Seq::empty()
    })
}

/// The IDs recorded for a call can be hashed.
pub open spec fn call_ok(
    names: Set<Seq<char>>,
    aliases: Seq<(Seq<char>, Seq<char>)>,
    vars: Seq<(Seq<char>, JsObjectLit)>,
    call: JsCallExpr,
    state: CoreState,
) -> bool {
    &&& (format_call_in(names, aliases, call) ==> match passed_object(vars, call) {
        Some(o) => message_object_hashable(o, state, None, HashScheme::Base64),
        None => true,
    })
    &&& (define_call_in(names, aliases, call) ==> match passed_object(vars, call) {
        Some(o) => define_props_hashable(o.props@, state, HashScheme::Base64),
        None => true,
    })
}

/// The variables initialized with object literals among `items`, in order.
pub open spec fn declared_vars(items: Seq<JsItem>) -> Seq<(Seq<char>, JsObjectLit)>
    decreases items.len(),
{
    if items.len() == 0 {
        Seq::empty()
    } else {
        let before = declared_vars(items.drop_last());
        match items.last() {
            JsItem::Declarator(d) => match declared_object(d) {
                Some(entry) => before.push(entry),
                None => before,
            },
            _ => before,
        }
    }
}

/// The messages of the elements among `items`, in order.
pub open spec fn element_messages(
    items: Seq<JsItem>,
    names: Set<Seq<char>>,
    aliases: Seq<(Seq<char>, Seq<char>)>,
    state: CoreState,
) -> Seq<MessageSpec>
    decreases items.len(),
{
    if items.len() == 0 {
        Seq::empty()
    } else {
        element_messages(items.drop_last(), names, aliases, state) + match items.last() {
            JsItem::Element(e) => optional_message(element_message_in(names, aliases, e, state)),
            _ => Seq::empty(),
        }
    }
}

/// The messages of the calls among `items`, in order; each call sees the
/// variables declared before it.
pub open spec fn call_messages(
    items: Seq<JsItem>,
    names: Set<Seq<char>>,
    aliases: Seq<(Seq<char>, Seq<char>)>,
    state: CoreState,
) -> Seq<MessageSpec>
    decreases items.len(),
{
    if items.len() == 0 {
        Seq::empty()
    } else {
        call_messages(items.drop_last(), names, aliases, state) + match items.last() {
            JsItem::Call(c) => call_messages_in(names, aliases, declared_vars(items.drop_last()), c, state),
            _ => Seq::empty(),
        }
    }
}

/// The messages that extraction finds in a module: those of the React Intl
/// elements, then those of the `formatMessage` and `defineMessages` calls,
/// each in the order of the module, with the imports of the whole module.
pub open spec fn module_messages(items: Seq<JsItem>, state: CoreState) -> Seq<MessageSpec> {
    let names = import_names(items, state.opts.module_source_name@);
    let aliases = import_aliases(items, state.opts.module_source_name@);
    element_messages(items, names, aliases, state) + call_messages(items, names, aliases, state)
}

/// Every ID that extraction generates in a module can be hashed.
pub open spec fn module_hashable(items: Seq<JsItem>, state: CoreState) -> bool {
    let names = import_names(items, state.opts.module_source_name@);
    let aliases = import_aliases(items, state.opts.module_source_name@);
    forall|i: int|
        0 <= i < items.len() ==> match #[trigger] items[i] {
            JsItem::Element(e) => element_ok(names, aliases, e, state),
            JsItem::Call(c) => call_ok(names, aliases, declared_vars(items.take(i)), c, state),
            _ => true,
        }
}

/// The messages of a module, when every ID they get can be hashed; `None`
/// otherwise.
pub fn extract_module(module: JsModule, state: &CoreState) -> (r: Option<Vec<TransformedMessageData>>)
    ensures
        r is Some <==> module_hashable(module.items@, *state),
        r matches Some(v) ==> message_list(v@) == module_messages(module.items@, *state),
{
    let ghost all = module.items@;
    let items = module.items;
    assert(items@ == all);
    let ghost source = state.opts.module_source_name@;
    let mut iv = ImportVisitor::new(state);
    let mut i: usize = 0;
    assert(all.take(0) =~= Seq::<JsItem>::empty());
    assert(iv.imported_names@ =~= import_names(all.take(0), source));
    assert(iv.alias_map.entries() =~= import_aliases(all.take(0), source));
    while i < items.len()
        invariant
            all == items@,
            i <= items.len(),
            iv.state == state,
            source == state.opts.module_source_name@,
            iv.imported_names@ == import_names(all.take(i as int), source),
            iv.alias_map.entries() == import_aliases(all.take(i as int), source),
        decreases items.len() - i,
    {
        assert(all.take(i + 1).drop_last() =~= all.take(i as int));
        assert(all.take(i + 1).last() == all[i as int]);
        if let JsItem::Import(d) = &items[i] {
            iv.visit_import_decl(d);
            assert(iv.imported_names@ =~= import_names(all.take(i + 1), source));
        } else {
            assert(iv.imported_names@ =~= import_names(all.take(i + 1), source));
            assert(iv.alias_map.entries() =~= import_aliases(all.take(i + 1), source));
        }
        i = i + 1;
    }
    assert(all.take(i as int) =~= all);
    let ghost names = iv.imported_names@;
    let ghost aliases = iv.alias_map.entries();
    let mut jv = JSXVisitor::new(state, &iv);
    i = 0;
    assert(message_list(jv.messages@) =~= element_messages(all.take(0), names, aliases, *state));
    while i < items.len()
        invariant
            all == items@,
            i <= items.len(),
            jv.state == state,
            *jv.import_visitor == iv,
            iv.imported_names@ == names,
            iv.alias_map.entries() == aliases,
            all == module.items@,
            names == import_names(all, state.opts.module_source_name@),
            aliases == import_aliases(all, state.opts.module_source_name@),
            jv.errors@.len() == 0,
            message_list(jv.messages@) == element_messages(all.take(i as int), names, aliases, *state),
            forall|j: int| 0 <= j < i ==> match #[trigger] all[j] {
                JsItem::Element(e) => element_ok(names, aliases, e, *state),
                _ => true,
            },
        decreases items.len() - i,
    {
        assert(all.take(i + 1).drop_last() =~= all.take(i as int));
        assert(all.take(i + 1).last() == all[i as int]);
        let ghost before = jv.messages@;
        if let JsItem::Element(e) = &items[i] {
            if !jv.element_hashable_exec(e) {
                assert(!match all[i as int] {
                    JsItem::Element(e) => element_ok(names, aliases, e, *state),
                    JsItem::Call(c) => call_ok(names, aliases, declared_vars(all.take(i as int)), c, *state),
                    _ => true,
                });
                assert(!module_hashable(all, *state));
                return None;
            }
            jv.visit_jsx_element(e);
        } else {
            assert(message_list(jv.messages@) =~= message_list(before) + Seq::<MessageSpec>::empty());
        }
        i = i + 1;
    }
    assert(all.take(i as int) =~= all);
    let (element_found, _errors) = jv.into_result();
    let mut cv = CallExpressionVisitor::new(state, &iv);
    let mut rest = items;
    let n = rest.len();
    i = 0;
    assert(all.skip(0) =~= all);
    assert(message_list(cv.messages@) =~= call_messages(all.take(0), names, aliases, *state));
    assert(cv.var_visitor.entries() =~= declared_vars(all.take(0)));
    while i < n
        invariant
            n == all.len(),
            i <= n,
            rest@ == all.skip(i as int),
            cv.state == state,
            *cv.import_visitor == iv,
            iv.imported_names@ == names,
            iv.alias_map.entries() == aliases,
            all == module.items@,
            names == import_names(all, state.opts.module_source_name@),
            aliases == import_aliases(all, state.opts.module_source_name@),
            cv.var_visitor.entries() == declared_vars(all.take(i as int)),
            message_list(cv.messages@) == call_messages(all.take(i as int), names, aliases, *state),
            forall|j: int| 0 <= j < i ==> match #[trigger] all[j] {
                JsItem::Call(c) => call_ok(names, aliases, declared_vars(all.take(j)), c, *state),
                _ => true,
            },
        decreases n - i,
    {
        let item = rest.remove(0);
        assert(item == all[i as int]);
        assert(rest@ =~= all.skip(i + 1));
        assert(all.take(i + 1).drop_last() =~= all.take(i as int));
        assert(all.take(i + 1).last() == all[i as int]);
        let ghost before = cv.messages@;
        match item {
            JsItem::Declarator(d) => {
                cv.visit_var_declarator(d);
                assert(message_list(cv.messages@) =~= message_list(before) + Seq::<MessageSpec>::empty());
            },
            JsItem::Call(c) => {
                if !cv.call_hashable_exec(&c) {
                    assert(!match all[i as int] {
                        JsItem::Element(e) => element_ok(names, aliases, e, *state),
                        JsItem::Call(c) => call_ok(names, aliases, declared_vars(all.take(i as int)), c, *state),
                        _ => true,
                    });
                    assert(!module_hashable(all, *state));
                    return None;
                }
                cv.visit_call_expr(&c);
            },
            _ => {
                assert(message_list(cv.messages@) =~= message_list(before) + Seq::<MessageSpec>::empty());
            },
        }
        i = i + 1;
    }
    assert(all.take(i as int) =~= all);
    let mut found = element_found;
    let mut call_found = cv.into_messages();
    let ghost first = found@;
    found.append(&mut call_found);
    assert(message_list(found@) =~= message_list(first) + message_list(cv.messages@));
    Some(found)
}

} // verus!

verus! {

/// The state of extraction for a file.
pub open spec fn state_of(filename: String, opts: CoreOptions, env: PathEnv) -> CoreState {
    CoreState { filename, opts, env }
}

/// The extracted messages `v` are the messages `msgs` of the file `filename`,
/// in order, with the file recorded when `opts` asks for it.
pub open spec fn extracted_from(
    v: Seq<ExtractedMessage>,
    msgs: Seq<MessageSpec>,
    filename: Seq<char>,
    opts: CoreOptions,
    cwd: Seq<char>,
) -> bool {
    &&& v.len() == msgs.len()
    &&& forall|i: int|
        0 <= i < v.len() ==> {
            let m = #[trigger] v[i];
            &&& m.id@ == msgs[i].id
            &&& opt_seq(m.default_message) == msgs[i].default_message
            &&& opt_seq(m.description) == msgs[i].description
            &&& opts.extract_source_location ==> (m.file matches Some(f) && f@ == spec_relative_to_cwd(filename, cwd))
            &&& !opts.extract_source_location ==> m.file is None
        }
}

/// The error for a file that does not parse.
pub open spec fn parse_failure(filename: Seq<char>, error: Seq<char>) -> Seq<char> {
    "Failed to parse "@ + filename + ": "@ + error
}

/// The error for a file with a text too long to hash.
pub open spec fn too_long_failure(filename: Seq<char>) -> Seq<char> {
    "Failed to process "@ + filename + ": text too long to hash"@
}

fn failure(head: &str, filename: &str, tail: &str) -> (r: String)
    ensures
        r@ == head@ + filename@ + tail@,
{
    let mut v = chars_of(head);
    push_all(&mut v, &chars_of(filename));
    push_all(&mut v, &chars_of(tail));
    string_of(&v)
}

/// Extracts the messages of a source file: parses `code` in the dialect of
/// `filename`, then records the messages of its React Intl elements and of its
/// `formatMessage` and `defineMessages` calls, in the order of the module.
/// A text that does not parse gives the parser's error; a text too long to
/// hash gives an error too.
pub fn extract_messages(code: &str, filename: &String, options: &CoreOptions, env: PathEnv) -> (r: Result<
    Vec<ExtractedMessage>,
    String,
>)
    ensures
        !hashable(code@) ==> (r matches Err(s) && s@ == too_long_failure(filename@)),
        hashable(code@) ==> match parsed_module(code@, spec_detect_syntax(filename@)) {
            Err(e) => (r matches Err(s) && s@ == parse_failure(filename@, e)),
            Ok(items) => if module_hashable(items, state_of(*filename, *options, env)) {
                (r matches Ok(v) && extracted_from(
                    v@,
                    module_messages(items, state_of(*filename, *options, env)),
                    filename@,
                    *options,
                    env.cwd@,
                ))
            } else {
                (r matches Err(s) && s@ == too_long_failure(filename@))
            },
        },
{
    if !fits_hash(code) {
        return Err(failure("Failed to process ", filename.as_str(), ": text too long to hash"));
    }
    let module = match parse_module(code, detect_syntax(filename.as_str())) {
        Ok(m) => m,
        Err(e) => {
            let mut tail = chars_of(": ");
            push_all(&mut tail, &chars_of(e.as_str()));
            return Err(failure("Failed to parse ", filename.as_str(), string_of(&tail).as_str()));
        },
    };
    let state = CoreState { filename: filename.clone(), opts: copy_options(options), env };
    assert(state == state_of(*filename, *options, env));
    match extract_module(module, &state) {
        None => Err(failure("Failed to process ", filename.as_str(), ": text too long to hash")),
        Some(found) => {
            let visitor = MessageExtractorVisitor { state, filename: filename.clone(), messages: found, errors: Vec::new() };
            visitor.into_result()
        },
    }
}

} // verus!

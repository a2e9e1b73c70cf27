//! The extractor's first interface: messages recorded with their source line.
//!
//! The caller walks the syntax tree (children before parents) and hands each
//! import, element and call to the visitor's methods.

use vstd::prelude::*;
use crate::ast_analysis::{analyze_define_messages, analyze_format_message, analyze_jsx_element};
use crate::ast_call::{define_messages_hashable, define_props_hashable_exec, first_object, message_object_hashable_exec, keyed_messages, message_object_hashable, spec_define_messages, spec_message_object};
use crate::ast_jsx::{jsx_message_hashable, jsx_message_hashable_exec, spec_jsx_message};
use crate::extractor::{detect_syntax, spec_detect_syntax};
use crate::gen_id::fits_hash;
use crate::hashing::hashable;
use crate::names::alias_lookup;
use crate::parse::{parse_module, parsed_module};
use crate::gen_id::HashScheme;
use crate::names::{AliasMap, NameSet};
use crate::syntax::{JsItem, JsModule, JsObjectLit, JsCallExpr, JsCallee, JsExpr, JsImportDecl, JsImportSpecifier, JsxElement, JsxElementName, JsModuleExportName};
use crate::text::{chars_of, owned, starts_with, starts_with_exec, str_eq};
use crate::types::{
    default_hash_algorithm, default_module_source_name, default_separator, is_react_component_name, opt_seq,
    react_components_contains, remove_prefix_view, CoreOptions, CoreState, MessageSpec, OutputMode, PathEnv,
    RemovePrefix, RemovePrefixSpec, TransformedMessageData,
};

verus! {

/// An extracted message.
#[derive(Debug, Clone, PartialEq, Eq)]
pub struct ExtractedMessage {
    pub id: String,
    pub default_message: String,
    pub description: Option<String>,
    pub file: Option<String>,
    pub line: Option<usize>,
}

/// What a message declares, before its ID is settled.
#[derive(Debug, Clone, PartialEq, Eq)]
pub struct MessageData {
    pub id: Option<String>,
    pub default_message: Option<String>,
    pub description: Option<String>,
}

/// Options for message extraction.
#[derive(Debug, Clone)]
pub struct ExtractionOptions {
    pub hash_id: bool,
    pub hash_algorithm: String,
    pub include_source_location: bool,
    pub separator: String,
    pub remove_prefix: Option<String>,
}

impl Default for ExtractionOptions {
    fn default() -> (r: Self)
        ensures
            !r.hash_id,
            r.hash_algorithm@ == "murmur3"@,
            !r.include_source_location,
            r.separator@ == "."@,
            r.remove_prefix is None,
    {
        ExtractionOptions {
            hash_id: false,
            hash_algorithm: default_hash_algorithm(),
            include_source_location: false,
            separator: default_separator(),
            remove_prefix: None,
        }
    }
}

/// `o` holds the options `e` sets and the defaults for the rest.
pub open spec fn core_options_for(o: CoreOptions, e: ExtractionOptions) -> bool {
    &&& remove_prefix_view(o.remove_prefix) == match e.remove_prefix {
        Some(s) => Some(RemovePrefixSpec::String(s@)),
        None => None,
    }
    &&& o.separator@ == e.separator@
    &&& o.hash_id == e.hash_id
    &&& o.hash_algorithm@ == e.hash_algorithm@
    &&& o.module_source_name@ == "react-intl"@
    &&& o.relative_to is None
    &&& !o.extract_source_location
    &&& o.output_mode == OutputMode::Aggregated
}

/// An exact copy of the options.
pub fn copy_extraction_options(o: &ExtractionOptions) -> (r: ExtractionOptions)
    ensures
        r == *o,
{
    ExtractionOptions {
        hash_id: o.hash_id,
        hash_algorithm: o.hash_algorithm.clone(),
        include_source_location: o.include_source_location,
        separator: o.separator.clone(),
        remove_prefix: match &o.remove_prefix {
            Some(p) => Some(p.clone()),
            None => None,
        },
    }
}

impl ExtractionOptions {
    /// The options of the shared analysis: these, and the defaults for the rest.
    pub fn to_core_options(&self) -> (r: CoreOptions)
        ensures
            core_options_for(r, *self),
    {
        CoreOptions {
            remove_prefix: match &self.remove_prefix {
                Some(s) => Some(RemovePrefix::String(owned(s.as_str()))),
                None => None,
            },
            module_source_name: default_module_source_name(),
            separator: owned(self.separator.as_str()),
            relative_to: None,
            hash_id: self.hash_id,
            hash_algorithm: owned(self.hash_algorithm.as_str()),
            extract_source_location: false,
            output_mode: OutputMode::Aggregated,
        }
    }
}

/// The text of an optional string, or nothing.
pub open spec fn text_or_empty(o: Option<String>) -> Seq<char> {
    match o {
        Some(s) => s@,
        None => Seq::empty(),
    }
}

/// An analyzed message as an extracted one; the file and line are kept when
/// `include_source_location` asks for them, and a missing default message
/// becomes the empty string.
pub fn to_extracted_message(
    _message_data: MessageData,
    transformed: TransformedMessageData,
    filename: &str,
    options: &ExtractionOptions,
    line: Option<usize>,
) -> (r: ExtractedMessage)
    ensures
        r.id == transformed.id,
        r.default_message@ == text_or_empty(transformed.default_message),
        r.description == transformed.description,
        options.include_source_location ==> (r.file matches Some(f) && f@ == filename@) && r.line == line,
        !options.include_source_location ==> r.file is None && r.line is None,
{
    ExtractedMessage {
        id: transformed.id,
        default_message: match transformed.default_message {
            Some(d) => d,
            None => String::new(),
        },
        description: transformed.description,
        file: if options.include_source_location {
            Some(owned(filename))
        } else {
            None
        },
        line: if options.include_source_location {
            line
        } else {
            None
        },
    }
}

/// The message a React Intl component element records, given the aliases
/// imported before it.
pub open spec fn jsx_record_in(aliases: Seq<(Seq<char>, Seq<char>)>, element: JsxElement, state: CoreState) -> Option<MessageSpec> {
    match element.opening.name {
        JsxElementName::Ident(n) => if is_react_component_name(
            match alias_lookup(aliases, n.sym@) {
                Some(o) => o,
                None => n.sym@,
            },
        ) {
            match spec_jsx_message(element, state, HashScheme::Decimal) {
                Some((m, _)) => Some(m),
                None => None,
            }
        } else {
            None
        },
        _ => None,
    }
}

/// What one walk over `items` has after each node: the imported names, the
/// aliases, and the recorded messages.
pub open spec fn walk(items: Seq<JsItem>, state: CoreState, with_location: bool) -> (
    Set<Seq<char>>,
    Seq<(Seq<char>, Seq<char>)>,
    Seq<(Seq<char>, Seq<char>, Option<Seq<char>>, Option<usize>)>,
)
    decreases items.len(),
{
    if items.len() == 0 {
        (Set::empty(), Seq::empty(), Seq::empty())
    } else {
        let (names, aliases, records) = walk(items.drop_last(), state, with_location);
        match items.last() {
            JsItem::Import(d) => if is_react_intl_source(d.src.value@) {
                (names.union(local_names_of(d.specifiers@).to_set()), aliases + local_aliases_of(d.specifiers@), records)
            } else {
                (names, aliases, records)
            },
            JsItem::Element(e) => (names, aliases, records + match jsx_record_in(aliases, e, state) {
                Some(m) => seq![record_of(m, e.span.lo as usize, with_location)],
                None => Seq::empty(),
            }),
            JsItem::Call(c) => (names, aliases, records + call_records(names, c, state).map_values(
                |m: MessageSpec| record_of(m, c.span.lo as usize, with_location),
            )),
            JsItem::Declarator(_) => (names, aliases, records),
        }
    }
}

/// Every ID that the walk over `items` generates can be hashed.
pub open spec fn walk_hashable(items: Seq<JsItem>, state: CoreState) -> bool {
    forall|i: int|
        0 <= i < items.len() ==> match #[trigger] items[i] {
            JsItem::Element(e) => jsx_message_hashable(e, state, HashScheme::Decimal),
            JsItem::Call(c) => call_hashable(c, state),
            _ => true,
        }
}

/// The messages of a parsed module as this interface records them, in the
/// order of the module; nothing when some ID could not be hashed.
pub open spec fn module_records(items: Seq<JsItem>, state: CoreState, with_location: bool) -> Seq<
    (Seq<char>, Seq<char>, Option<Seq<char>>, Option<usize>),
> {
    if walk_hashable(items, state) {
        walk(items, state, with_location).2
    } else {
        Seq::empty()
    }
}

/// The messages of source text: nothing for a text that does not parse (or is
/// too long to hash), else those of the parsed module.
pub open spec fn source_records(code: Seq<char>, filename: Seq<char>, state: CoreState, with_location: bool) -> Seq<
    (Seq<char>, Seq<char>, Option<Seq<char>>, Option<usize>),
> {
    if hashable(code) {
        match parsed_module(code, spec_detect_syntax(filename)) {
            Ok(items) => module_records(items, state, with_location),
            Err(_) => Seq::empty(),
        }
    } else {
        Seq::empty()
    }
}

/// The descriptor object a call passes first, if it passes one.
fn first_object_exec(call: &JsCallExpr) -> (r: Option<&JsObjectLit>)
    ensures
        r matches Some(o) ==> first_object(*call) == Some(*o),
        r is None ==> first_object(*call) is None,
{
    if call.args.len() > 0 {
        match &*call.args[0].expr {
            JsExpr::Object(o) => Some(o),
            _ => None,
        }
    } else {
        None
    }
}

/// Whether the IDs that a call's messages would be given can be hashed.
fn call_hashable_exec(call: &JsCallExpr, state: &CoreState) -> (r: bool)
    ensures
        r == call_hashable(*call, *state),
{
    match first_object_exec(call) {
        Some(o) => define_props_hashable_exec(&o.props, state, HashScheme::Decimal)
            && message_object_hashable_exec(o, state, None, HashScheme::Decimal),
        None => true,
    }
}

/// Extracts the messages of source text: parses `code` in the dialect of
/// `filename` and records the messages of React Intl elements and of
/// `defineMessages` and `formatMessage` calls in one walk over the module.
/// A text that does not parse, or whose IDs could not be hashed, gives none.
pub fn extract_messages(code: &str, filename: &str, options: &ExtractionOptions, env: PathEnv) -> (r: Vec<
    ExtractedMessage,
>)
    ensures
        exists|state: CoreState|
            #![trigger source_records(code@, filename@, state, options.include_source_location)]
            state.filename@ == filename@ && state.env == env && core_options_for(state.opts, *options)
                && recorded(r@) == source_records(code@, filename@, state, options.include_source_location),
        files_are(r@, file_of(filename@, options.include_source_location)),
{
    let mut visitor = MessageExtractorVisitor::new(owned(filename), copy_extraction_options(options), env);
    let ghost state = visitor.state;
    let ghost with_location = options.include_source_location;
    if !fits_hash(code) {
        assert(recorded(Seq::<ExtractedMessage>::empty()) =~= source_records(code@, filename@, state, with_location));
        return Vec::new();
    }
    let module = match parse_module(code, detect_syntax(filename)) {
        Ok(m) => m,
        Err(_) => {
            assert(recorded(Seq::<ExtractedMessage>::empty()) =~= source_records(code@, filename@, state, with_location));
            return Vec::new();
        },
    };
    assert(parsed_module(code@, spec_detect_syntax(filename@)) == Ok::<Seq<JsItem>, Seq<char>>(module.items@));
    let items = &module.items;
    let ghost all = items@;
    let mut i: usize = 0;
    assert(all.take(0) =~= Seq::<JsItem>::empty());
    assert(recorded(visitor.messages@) =~= walk(all.take(0), state, with_location).2);
    assert(visitor.imported_names@ =~= walk(all.take(0), state, with_location).0);
    assert(visitor.alias_map.entries() =~= walk(all.take(0), state, with_location).1);
    while i < items.len()
        invariant
            all == items@,
            all == module.items@,
            i <= items.len(),
            hashable(code@),
            parsed_module(code@, spec_detect_syntax(filename@)) == Ok::<Seq<JsItem>, Seq<char>>(all),
            state.filename@ == filename@,
            state.env == env,
            core_options_for(state.opts, *options),
            with_location == options.include_source_location,
            visitor.state == state,
            visitor.options.include_source_location == with_location,
            visitor.filename@ == filename@,
            files_are(visitor.messages@, file_of(filename@, with_location)),
            visitor.imported_names@ == walk(all.take(i as int), state, with_location).0,
            visitor.alias_map.entries() == walk(all.take(i as int), state, with_location).1,
            recorded(visitor.messages@) == walk(all.take(i as int), state, with_location).2,
            forall|j: int| 0 <= j < i ==> match #[trigger] all[j] {
                JsItem::Element(e) => jsx_message_hashable(e, state, HashScheme::Decimal),
                JsItem::Call(c) => call_hashable(c, state),
                _ => true,
            },
        decreases items.len() - i,
    {
        assert(all.take(i + 1).drop_last() =~= all.take(i as int));
        assert(all.take(i + 1).last() == all[i as int]);
        let ghost before = recorded(visitor.messages@);
        match &items[i] {
            JsItem::Import(d) => {
                visitor.visit_import_decl(d);
            },
            JsItem::Element(e) => {
                if !jsx_message_hashable_exec(e, &visitor.state, HashScheme::Decimal) {
                    assert(!walk_hashable(all, state));
                    assert(recorded(Seq::<ExtractedMessage>::empty()) =~= source_records(code@, filename@, state, with_location));
                    return Vec::new();
                }
                visitor.visit_jsx_element(e);
            },
            JsItem::Call(c) => {
                if !call_hashable_exec(c, &visitor.state) {
                    assert(!walk_hashable(all, state));
                    assert(recorded(Seq::<ExtractedMessage>::empty()) =~= source_records(code@, filename@, state, with_location));
                    return Vec::new();
                }
                visitor.visit_call_expr(c);
            },
            JsItem::Declarator(_) => {},
        }
        assert(recorded(visitor.messages@) =~= walk(all.take(i + 1), state, with_location).2);
        i = i + 1;
    }
    assert(all.take(i as int) =~= all);
    assert(walk_hashable(all, state));
    assert(module_records(module.items@, state, with_location) == walk(all, state, with_location).2);
    assert(source_records(code@, filename@, state, with_location) == walk(all, state, with_location).2);
    let r = visitor.into_messages();
    assert(recorded(r@) == source_records(code@, filename@, state, with_location));
    r
}

/// The names one specifier brings in: its local name.
pub open spec fn local_names_of(specs: Seq<JsImportSpecifier>) -> Seq<Seq<char>>
    decreases specs.len(),
{
    if specs.len() == 0 {
        Seq::empty()
    } else {
        local_names_of(specs.drop_last()) + seq![
            match specs.last() {
                JsImportSpecifier::Named(n) => n.local.sym@,
                JsImportSpecifier::Default(l) => l.sym@,
                JsImportSpecifier::Namespace(l) => l.sym@,
            },
        ]
    }
}

/// The alias one specifier brings in: `import { a as b }` (with an identifier
/// `a`) maps `b` to `a`.
pub open spec fn local_aliases_of(specs: Seq<JsImportSpecifier>) -> Seq<(Seq<char>, Seq<char>)>
    decreases specs.len(),
{
    if specs.len() == 0 {
        Seq::empty()
    } else {
        local_aliases_of(specs.drop_last()) + match specs.last() {
            JsImportSpecifier::Named(n) => match n.imported {
                Some(JsModuleExportName::Ident(i)) => if i.sym@ != n.local.sym@ {
                    seq![(n.local.sym@, i.sym@)]
                } else {
                    Seq::empty()
                },
                _ => Seq::empty(),
            },
            _ => Seq::empty(),
        }
    }
}

/// The import is from `react-intl` or a path below it.
pub open spec fn is_react_intl_source(src: Seq<char>) -> bool {
    src == "react-intl"@ || starts_with(src, "react-intl/"@)
}

/// The message a React Intl component element records, if any.
pub open spec fn jsx_record(aliases: AliasMap, element: JsxElement, state: CoreState) -> Option<MessageSpec> {
    match element.opening.name {
        JsxElementName::Ident(n) => if is_react_component_name(
            match aliases.spec_get(n.sym@) {
                Some(o) => o,
                None => n.sym@,
            },
        ) {
            match spec_jsx_message(element, state, HashScheme::Decimal) {
                Some((m, _)) => Some(m),
                None => None,
            }
        } else {
            None
        },
        _ => None,
    }
}

/// The messages a call records: those of `defineMessages` when that name was
/// imported, or that of `formatMessage`.
pub open spec fn call_records(names: Set<Seq<char>>, call: JsCallExpr, state: CoreState) -> Seq<MessageSpec> {
    match crate::ast_call::callee_ident(call) {
        Some(f) => if f == "defineMessages"@ && names.contains("defineMessages"@) {
            spec_define_messages(call, state, HashScheme::Decimal).map_values(|x: (Seq<char>, MessageSpec, bool)| x.1)
        } else if f == "formatMessage"@ {
            match first_object(call) {
                Some(o) => match spec_message_object(o, state, None, HashScheme::Decimal) {
                    Some((m, _)) => seq![m],
                    None => Seq::empty(),
                },
                None => Seq::empty(),
            }
        } else {
            Seq::empty()
        },
        None => Seq::empty(),
    }
}

/// The IDs that a call's messages would be given can be hashed.
pub open spec fn call_hashable(call: JsCallExpr, state: CoreState) -> bool {
    &&& define_messages_hashable(call, state, HashScheme::Decimal)
    &&& first_object(call) matches Some(o) ==> message_object_hashable(o, state, None, HashScheme::Decimal)
}

/// The recorded messages, as plain values: the message and its line.
pub open spec fn recorded(v: Seq<ExtractedMessage>) -> Seq<(Seq<char>, Seq<char>, Option<Seq<char>>, Option<usize>)> {
    v.map_values(|m: ExtractedMessage| (m.id@, m.default_message@, opt_seq(m.description), m.line))
}

/// Every message of `v` records `file` as its file.
pub open spec fn files_are(v: Seq<ExtractedMessage>, file: Option<Seq<char>>) -> bool {
    forall|i: int| 0 <= i < v.len() ==> opt_seq(#[trigger] v[i].file) == file
}

/// Adding a message that records `file` keeps every message recording it.
proof fn lemma_files_push(before: Seq<ExtractedMessage>, after: Seq<ExtractedMessage>, file: Option<Seq<char>>)
    requires
        files_are(before, file),
        after.len() == before.len() + 1,
        after.drop_last() == before,
        opt_seq(after.last().file) == file,
    ensures
        files_are(after, file),
{
    assert forall|i: int| 0 <= i < after.len() implies opt_seq(#[trigger] after[i].file) == file by {
        if i < before.len() {
            assert(after[i] == after.drop_last()[i]);
        }
    }
}

/// The file that messages record: the file name when `with_location` asks for it.
pub open spec fn file_of(filename: Seq<char>, with_location: bool) -> Option<Seq<char>> {
    if with_location {
        Some(filename)
    } else {
        None
    }
}

/// A message as it is recorded with `options`.
pub open spec fn record_of(m: MessageSpec, line: usize, with_location: bool) -> (Seq<char>, Seq<char>, Option<Seq<char>>, Option<usize>) {
    (
        m.id,
        match m.default_message {
            Some(d) => d,
            None => Seq::empty(),
        },
        m.description,
        if with_location {
            Some(line)
        } else {
            None
        },
    )
}

/// Collects the messages of one file.
pub struct MessageExtractorVisitor {
    pub messages: Vec<ExtractedMessage>,
    pub filename: String,
    pub options: ExtractionOptions,
    pub imported_names: NameSet,
    pub alias_map: AliasMap,
    pub state: CoreState,
}

impl MessageExtractorVisitor {
    pub fn new(filename: String, options: ExtractionOptions, env: PathEnv) -> (r: Self)
        ensures
            r.messages@.len() == 0,
            r.filename@ == filename@,
            r.state.filename@ == filename@,
            r.state.env == env,
            r.options == options,
            core_options_for(r.state.opts, options),
            r.imported_names@ == Set::<Seq<char>>::empty(),
            r.alias_map.entries().len() == 0,
    {
        let opts = options.to_core_options();
        let state = CoreState::new(owned(filename.as_str()), opts, env);
        MessageExtractorVisitor {
            messages: Vec::new(),
            filename,
            options,
            imported_names: NameSet::new(),
            alias_map: AliasMap::new(),
            state,
        }
    }

    /// The messages recorded.
    pub fn into_messages(self) -> (r: Vec<ExtractedMessage>)
        ensures
            r == self.messages,
    {
        self.messages
    }

    /// Records a message found at `line`.
    pub fn add_message(&mut self, transformed: TransformedMessageData, line: Option<usize>)
        ensures
            final(self).state == old(self).state,
            final(self).options == old(self).options,
            final(self).filename == old(self).filename,
            final(self).imported_names == old(self).imported_names,
            final(self).alias_map == old(self).alias_map,
            final(self).messages@.len() == old(self).messages@.len() + 1,
            final(self).messages@.drop_last() == old(self).messages@,
            final(self).messages@.last().id@ == transformed.id@,
            final(self).messages@.last().default_message@ == text_or_empty(transformed.default_message),
            opt_seq(final(self).messages@.last().description) == opt_seq(transformed.description),
            final(self).messages@.last().line == if old(self).options.include_source_location {
                line
            } else {
                None
            },
            opt_seq(final(self).messages@.last().file) == file_of(old(self).filename@, old(self).options.include_source_location),
    {
        let data = MessageData { id: None, default_message: None, description: None };
        let extracted = to_extracted_message(data, transformed, self.filename.as_str(), &self.options, line);
        self.messages.push(extracted);
        assert(self.messages@.drop_last() =~= old(self).messages@);
    }

    /// Adds the names and aliases of an import from React Intl.
    pub fn visit_import_decl(&mut self, import: &JsImportDecl)
        ensures
            final(self).messages == old(self).messages,
            final(self).state == old(self).state,
            final(self).options == old(self).options,
            final(self).filename == old(self).filename,
            is_react_intl_source(import.src.value@) ==> {
                &&& final(self).imported_names@ == old(self).imported_names@.union(local_names_of(import.specifiers@).to_set())
                &&& final(self).alias_map.entries() == old(self).alias_map.entries() + local_aliases_of(import.specifiers@)
            },
            !is_react_intl_source(import.src.value@) ==> {
                &&& final(self).imported_names@ == old(self).imported_names@
                &&& final(self).alias_map.entries() == old(self).alias_map.entries()
            },
    {
        let source = import.src.value.as_str();
        if !(str_eq(source, "react-intl") || starts_with_exec(&chars_of(source), &chars_of("react-intl/"))) {
            return;
        }
        let specs = &import.specifiers;
        let ghost names0 = self.imported_names@;
        let ghost aliases0 = self.alias_map.entries();
        let mut i: usize = 0;
        assert(local_names_of(specs@.take(0)).to_set() =~= Set::<Seq<char>>::empty());
        assert(names0.union(Set::<Seq<char>>::empty()) =~= names0);
        assert(aliases0 + local_aliases_of(specs@.take(0)) =~= aliases0);
        while i < specs.len()
            invariant
                i <= specs.len(),
                self.messages == old(self).messages,
                self.state == old(self).state,
                self.options == old(self).options,
                self.filename == old(self).filename,
                names0 == old(self).imported_names@,
                aliases0 == old(self).alias_map.entries(),
                self.imported_names@ == names0.union(local_names_of(specs@.take(i as int)).to_set()),
                self.alias_map.entries() == aliases0 + local_aliases_of(specs@.take(i as int)),
            decreases specs.len() - i,
        {
            assert(specs@.take(i + 1).drop_last() =~= specs@.take(i as int));
            assert(specs@.take(i + 1).last() == specs@[i as int]);
            let ghost prev_names = local_names_of(specs@.take(i as int));
            let ghost prev_aliases = self.alias_map.entries();
            let local = match &specs[i] {
                JsImportSpecifier::Named(named) => owned(named.local.sym.as_str()),
                JsImportSpecifier::Default(def) => owned(def.sym.as_str()),
                JsImportSpecifier::Namespace(ns) => owned(ns.sym.as_str()),
            };
            let ghost loc = local@;
            self.imported_names.insert(owned(local.as_str()));
            proof {
                crate::names::lemma_push_to_set(prev_names, loc);
                assert(prev_names.push(loc) =~= prev_names + seq![loc]);
                assert(names0.union(prev_names.to_set()).insert(loc) =~= names0.union(prev_names.push(loc).to_set()));
            }
            if let JsImportSpecifier::Named(named) = &specs[i] {
                if let Some(JsModuleExportName::Ident(ident)) = &named.imported {
                    if !str_eq(local.as_str(), ident.sym.as_str()) {
                        self.alias_map.insert(local, owned(ident.sym.as_str()));
                    }
                }
            }
            assert(self.alias_map.entries() =~= aliases0 + local_aliases_of(specs@.take(i + 1)));
            i = i + 1;
        }
        assert(specs@.take(i as int) =~= specs@);
    }

    /// Records the message of a React Intl component element (after its
    /// children were visited), with the element's line.
    pub fn visit_jsx_element(&mut self, element: &JsxElement)
        requires
            jsx_message_hashable(*element, old(self).state, HashScheme::Decimal),
        ensures
            final(self).state == old(self).state,
            final(self).options == old(self).options,
            final(self).imported_names == old(self).imported_names,
            final(self).alias_map == old(self).alias_map,
            final(self).filename == old(self).filename,
            files_are(old(self).messages@, file_of(old(self).filename@, old(self).options.include_source_location))
                ==> files_are(final(self).messages@, file_of(old(self).filename@, old(self).options.include_source_location)),
            recorded(final(self).messages@) == recorded(old(self).messages@) + match jsx_record(old(self).alias_map, *element, old(self).state) {
                Some(m) => seq![record_of(m, element.span.lo as usize, old(self).options.include_source_location)],
                None => Seq::empty(),
            },
    {
        let ghost before = self.messages@;
        if let JsxElementName::Ident(name) = &element.opening.name {
            let name_str = name.sym.as_str();
            let component_name = match self.alias_map.get(name_str) {
                Some(original) => original.as_str(),
                None => name_str,
            };
            if react_components_contains(component_name) {
                if let Some((transformed, _)) = analyze_jsx_element(element, &self.state) {
                    let line = element.span.lo as usize;
                    self.add_message(transformed, Some(line));
                    proof {
                        if files_are(before, file_of(old(self).filename@, old(self).options.include_source_location)) {
                            lemma_files_push(before, self.messages@, file_of(old(self).filename@, old(self).options.include_source_location));
                        }
                    }
                    assert(recorded(self.messages@) =~= recorded(before).push(recorded(self.messages@).last()));
                    return;
                }
            }
        }
        assert(recorded(self.messages@) =~= recorded(before) + Seq::empty());
    }

    /// Records the messages of a `defineMessages` or `formatMessage` call
    /// (after those of the calls inside it), with the call's line.
    pub fn visit_call_expr(&mut self, call: &JsCallExpr)
        requires
            call_hashable(*call, old(self).state),
        ensures
            final(self).state == old(self).state,
            final(self).options == old(self).options,
            final(self).imported_names == old(self).imported_names,
            final(self).alias_map == old(self).alias_map,
            final(self).filename == old(self).filename,
            files_are(old(self).messages@, file_of(old(self).filename@, old(self).options.include_source_location))
                ==> files_are(final(self).messages@, file_of(old(self).filename@, old(self).options.include_source_location)),
            recorded(final(self).messages@) == recorded(old(self).messages@) + call_records(old(self).imported_names@, *call, old(self).state).map_values(
                |m: MessageSpec| record_of(m, call.span.lo as usize, old(self).options.include_source_location),
            ),
    {
        let ghost before = self.messages@;
        let ghost records = call_records(self.imported_names@, *call, self.state).map_values(
            |m: MessageSpec| record_of(m, call.span.lo as usize, self.options.include_source_location),
        );
        if let JsCallee::Expr(expr) = &call.callee {
            if let JsExpr::Ident(ident) = &**expr {
                let fn_name = ident.sym.as_str();
                if str_eq(fn_name, "defineMessages") && self.imported_names.contains("defineMessages") {
                    let results = analyze_define_messages(call, &self.state);
                    let ghost keyed = keyed_messages(results@);
                    let line = call.span.lo as usize;
                    let mut k: usize = 0;
                    while k < results.len()
                        invariant
                            k <= results.len(),
                            keyed == keyed_messages(results@),
                            keyed == spec_define_messages(*call, old(self).state, HashScheme::Decimal),
                            line == call.span.lo as usize,
                            self.state == old(self).state,
                            self.options == old(self).options,
                            self.imported_names == old(self).imported_names,
                            self.alias_map == old(self).alias_map,
                            self.filename == old(self).filename,
                            files_are(old(self).messages@, file_of(old(self).filename@, old(self).options.include_source_location))
                                ==> files_are(self.messages@, file_of(old(self).filename@, old(self).options.include_source_location)),
                            recorded(self.messages@) == recorded(before) + keyed.take(k as int).map_values(
                                |x: (Seq<char>, MessageSpec, bool)| x.1,
                            ).map_values(|m: MessageSpec| record_of(m, line, old(self).options.include_source_location)),
                        decreases results.len() - k,
                    {
                        let ghost mid = self.messages@;
                        let t = crate::types::copy_message(&results[k].1);
                        self.add_message(t, Some(line));
                        proof {
                            if files_are(old(self).messages@, file_of(old(self).filename@, old(self).options.include_source_location)) {
                                lemma_files_push(mid, self.messages@, file_of(old(self).filename@, old(self).options.include_source_location));
                            }
                        }
                        assert(keyed.take(k + 1) =~= keyed.take(k as int).push(keyed[k as int]));
                        assert(recorded(self.messages@) =~= recorded(mid).push(recorded(self.messages@).last()));
                        assert(keyed.take(k + 1).map_values(|x: (Seq<char>, MessageSpec, bool)| x.1).map_values(
                            |m: MessageSpec| record_of(m, line, old(self).options.include_source_location),
                        ) =~= keyed.take(k as int).map_values(|x: (Seq<char>, MessageSpec, bool)| x.1).map_values(
                            |m: MessageSpec| record_of(m, line, old(self).options.include_source_location),
                        ).push(record_of(keyed[k as int].1, line, old(self).options.include_source_location)));
                        k = k + 1;
                    }
                    assert(keyed.take(k as int) =~= keyed);
                    return;
                } else if str_eq(fn_name, "formatMessage") {
                    proof {
                        reveal_strlit("formatMessage");
                        reveal_strlit("defineMessages");
                        assert("formatMessage"@.len() != "defineMessages"@.len());
                    }
                    if let Some((transformed, _)) = analyze_format_message(call, &self.state) {
                        let line = call.span.lo as usize;
                        self.add_message(transformed, Some(line));
                        proof {
                            if files_are(before, file_of(old(self).filename@, old(self).options.include_source_location)) {
                                lemma_files_push(before, self.messages@, file_of(old(self).filename@, old(self).options.include_source_location));
                            }
                        }
                        assert(recorded(self.messages@) =~= recorded(before).push(recorded(self.messages@).last()));
                        return;
                    }
                }
            }
        }
        assert(recorded(self.messages@) =~= recorded(before) + Seq::empty());
    }
}

/// Law: a call of `formatMessage` is recorded whether or not `formatMessage`
/// was imported: its records do not depend on the imported names.
pub proof fn law_format_message_needs_no_import(
    names1: Set<Seq<char>>,
    names2: Set<Seq<char>>,
    call: JsCallExpr,
    state: CoreState,
)
    requires
        crate::ast_call::callee_ident(call) == Some("formatMessage"@),
    ensures
        call_records(names1, call, state) == call_records(names2, call, state),
        call_records(names1, call, state) == match first_object(call) {
            Some(o) => match spec_message_object(o, state, None, HashScheme::Decimal) {
                Some((m, _)) => seq![m],
                None => Seq::empty(),
            },
            None => Seq::<MessageSpec>::empty(),
        },
{
    reveal_strlit("formatMessage");
    reveal_strlit("defineMessages");
    assert("formatMessage"@ != "defineMessages"@) by {
        assert("formatMessage"@.len() != "defineMessages"@.len());
    }
}

} // verus!


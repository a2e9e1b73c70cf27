//! The transform of the plugin configured by `PluginOptions`: what it rewrites
//! at each import, element and call of a module.
//!
//! IDs are the path prefix of the file (see `plugin_utils::get_prefix`)
//! followed by the decimal murmur3 hash of the default message, by the
//! message's `key` when `use_key` asks for it, or by the `defineMessages` key.
//! The caller walks the syntax tree (children before parents) and hands each
//! node to these methods.

use vstd::prelude::*;
use crate::ast_import::{aliases_of, names_of, process_specifiers};
use crate::hashing::{hashable, murmur_decimal};
use crate::names::{AliasMap, NameSet};
use crate::plugin_types::{IncludeExportName, PluginState};
use crate::plugin_utils::{create_hash, get_prefix, opt_str_view, spec_get_prefix};
use crate::rewrite::{
    attr_inserted, attr_named, first_arg_replaced, id_appended, id_entry, is_id_entry, is_string_prop, push_id,
    put_first_arg, take_first_arg,
};
use crate::swc_visitors::{has_top_level_id, is_id_key_entry};
use crate::ast_vars::{declaration_list, declared_object, find_declared, object_lookup, record_declarator};
use crate::syntax::{
    copy_expr, copy_object, same_props, JsCallExpr, JsCallee, JsExpr, JsImportDecl, JsxAttr, JsxAttrName, JsxAttrOrSpread,
    JsxAttrValue, JsxElement, JsxElementName, JsxExpr, JsxOpeningElement, JsKeyValueProp, JsLit, JsMemberProp, JsObjectLit,
    JsProp, JsPropName, JsPropOrSpread, JsStr, JsTplElement, JsVarDeclarator, dummy_sp,
};
use crate::text::{chars_of, concat, contains_exec, contains_seq, owned, push_all, str_eq, string_of};
use crate::types::{is_react_component_name, opt_seq, react_components_contains};

verus! {

/// Collects the names imported from a module whose name contains
/// `module_source_name`, and their aliases.
pub struct ImportVisitor {
    pub imported_names: NameSet,
    pub module_source_name: String,
    pub alias_map: AliasMap,
}

impl ImportVisitor {
    /// Adds the names and aliases of one import declaration.
    pub fn visit_mut_import_decl(&mut self, import_decl: &JsImportDecl)
        ensures
            final(self).module_source_name == old(self).module_source_name,
            contains_seq(import_decl.src.value@, old(self).module_source_name@) ==> {
                &&& final(self).imported_names@ == old(self).imported_names@.union(
                    names_of(import_decl.specifiers@).to_set(),
                )
                &&& final(self).alias_map.entries() == old(self).alias_map.entries() + aliases_of(
                    import_decl.specifiers@,
                )
            },
            !contains_seq(import_decl.src.value@, old(self).module_source_name@) ==> {
                &&& final(self).imported_names@ == old(self).imported_names@
                &&& final(self).alias_map.entries() == old(self).alias_map.entries()
            },
    {
        let src = chars_of(import_decl.src.value.as_str());
        let module = chars_of(self.module_source_name.as_str());
        if contains_exec(&src, &module) {
            let (names, aliases) = process_specifiers(&import_decl.specifiers);
            self.imported_names.extend(names);
            self.alias_map.extend(aliases);
        }
    }
}

/// The raw text of the pieces of a template literal, one after the other.
pub open spec fn quasis_text(q: Seq<JsTplElement>) -> Seq<char>
    decreases q.len(),
{
    if q.len() == 0 {
        Seq::empty()
    } else {
        quasis_text(q.drop_last()) + q.last().raw@
    }
}

/// The raw text of the pieces of a template literal.
fn quasis_text_exec(q: &Vec<JsTplElement>) -> (r: Vec<char>)
    ensures
        r@ == quasis_text(q@),
{
    let mut r: Vec<char> = Vec::new();
    let mut i: usize = 0;
    while i < q.len()
        invariant
            i <= q.len(),
            r@ == quasis_text(q@.take(i as int)),
        decreases q.len() - i,
    {
        assert(q@.take(i + 1).drop_last() =~= q@.take(i as int));
        push_all(&mut r, &chars_of(q[i].raw.as_str()));
        i = i + 1;
    }
    assert(q@.take(i as int) =~= q@);
    r
}

/// The text of an attribute value: a string, a string expression in braces,
/// or a template literal without expressions in braces.
pub open spec fn attr_text(attr: JsxAttr) -> Option<Seq<char>> {
    match attr.value {
        Some(JsxAttrValue::Str(s)) => Some(s.value@),
        Some(JsxAttrValue::JSXExprContainer(c)) => match c.expr {
            JsxExpr::Expr(e) => match *e {
                JsExpr::Lit(JsLit::Str(s)) => Some(s.value@),
                JsExpr::Tpl(t) => if t.exprs.len() == 0 {
                    Some(quasis_text(t.quasis@))
                } else {
                    None
                },
                _ => None,
            },
            _ => None,
        },
        _ => None,
    }
}

/// The position of the last attribute named `name`.
pub open spec fn last_named(attrs: Seq<JsxAttrOrSpread>, name: Seq<char>) -> Option<int>
    decreases attrs.len(),
{
    if attrs.len() == 0 {
        None
    } else if attr_named(attrs.last(), name) {
        Some(attrs.len() - 1)
    } else {
        last_named(attrs.drop_last(), name)
    }
}

/// A position as an integer.
pub open spec fn opt_index(o: Option<usize>) -> Option<int> {
    match o {
        Some(i) => Some(i as int),
        None => None,
    }
}

/// The text the ID of an element ends with: its `key` when `use_key` asks for
/// it and the key has a text, else the hash of its default message (empty when
/// the message has no text).
pub open spec fn element_suffix(state: PluginState, attrs: Seq<JsxAttrOrSpread>, dm_idx: int, key_idx: Option<int>) -> Seq<char> {
    match key_text(state, attrs, key_idx) {
        Some(t) => t,
        None => match attrs[dm_idx] {
            JsxAttrOrSpread::JSXAttr(a) => match attr_text(a) {
                Some(m) => murmur_decimal(m),
                None => Seq::empty(),
            },
            _ => Seq::empty(),
        },
    }
}

/// The text of the `key` attribute, when `use_key` asks for it.
pub open spec fn key_text(state: PluginState, attrs: Seq<JsxAttrOrSpread>, key_idx: Option<int>) -> Option<Seq<char>> {
    if state.opts.use_key {
        match key_idx {
            Some(k) => match attrs[k] {
                JsxAttrOrSpread::JSXAttr(a) => attr_text(a),
                _ => None,
            },
            None => None,
        }
    } else {
        None
    }
}

/// The default message of an element can be hashed whenever its hash is needed.
pub open spec fn element_suffix_hashable(state: PluginState, attrs: Seq<JsxAttrOrSpread>, dm_idx: int, key_idx: Option<int>) -> bool {
    key_text(state, attrs, key_idx) is None ==> match attrs[dm_idx] {
        JsxAttrOrSpread::JSXAttr(a) => match attr_text(a) {
            Some(m) => hashable(m),
            None => true,
        },
        _ => true,
    }
}

/// The ID an element gets and where it goes: right before its last
/// `defaultMessage` attribute, when it has one and no `id` attribute.
pub open spec fn element_insertion(state: PluginState, element: JsxElement) -> Option<(int, Seq<char>)> {
    let attrs = element.opening.attrs@;
    match (last_named(attrs, "id"@), last_named(attrs, "defaultMessage"@)) {
        (None, Some(d)) => Some((d, spec_get_prefix(state, Some(element_suffix(state, attrs, d, last_named(attrs, "key"@)))))),
        _ => None,
    }
}

/// The hash that an element's ID may need can be taken.
pub open spec fn element_hashable(state: PluginState, element: JsxElement) -> bool {
    let attrs = element.opening.attrs@;
    match (last_named(attrs, "id"@), last_named(attrs, "defaultMessage"@)) {
        (None, Some(d)) => element_suffix_hashable(state, attrs, d, last_named(attrs, "key"@)),
        _ => true,
    }
}

/// The element `after` is `before` with the insertion made, if any.
pub open spec fn element_inserted(before: JsxElement, after: JsxElement, insertion: Option<(int, Seq<char>)>) -> bool {
    match insertion {
        Some((idx, id)) => {
            &&& after.span == before.span
            &&& after.opening.name == before.opening.name
            &&& attr_inserted(before.opening.attrs@, after.opening.attrs@, idx, id)
        },
        None => after == before,
    }
}

/// The element is a React Intl component, by its name or what the name is an
/// alias of.
pub open spec fn is_component(aliases: AliasMap, element: JsxElement) -> bool {
    match element.opening.name {
        JsxElementName::Ident(n) => is_react_component_name(
            match aliases.spec_get(n.sym@) {
                Some(original) => original,
                None => n.sym@,
            },
        ),
        _ => false,
    }
}

/// Lemma: the last attribute named `name` is named so, and lies in range.
proof fn lemma_last_named(attrs: Seq<JsxAttrOrSpread>, name: Seq<char>)
    ensures
        last_named(attrs, name) matches Some(i) ==> 0 <= i < attrs.len() && attr_named(attrs[i], name),
    decreases attrs.len(),
{
    if attrs.len() > 0 && !attr_named(attrs.last(), name) {
        lemma_last_named(attrs.drop_last(), name);
    }
}

/// Inserts the IDs of React Intl components.
pub struct JSXVisitor {
    pub state: PluginState,
    pub imported_names: NameSet,
    pub alias_map: AliasMap,
}

impl JSXVisitor {
    /// Inserts the ID of an element that is a React Intl component (after its
    /// children were visited).
    pub fn visit_mut_jsx_element(&self, element: &mut JsxElement)
        requires
            is_component(self.alias_map, *old(element)) ==> element_hashable(self.state, *old(element)),
        ensures
            element_inserted(*old(element), *final(element), if is_component(self.alias_map, *old(element)) {
                element_insertion(self.state, *old(element))
            } else {
                None
            }),
    {
        if let JsxElementName::Ident(name) = &element.opening.name {
            let name_str = name.sym.as_str();
            let component_name = match self.alias_map.get(name_str) {
                Some(original) => original.as_str(),
                None => name_str,
            };
            if react_components_contains(component_name) {
                self.process_jsx_element(element, &self.imported_names);
            }
        }
    }

    /// Inserts the generated ID of an element that has a default message and no ID.
    pub fn process_jsx_element(&self, element: &mut JsxElement, _imported_names: &NameSet)
        requires
            element_hashable(self.state, *old(element)),
        ensures
            element_inserted(*old(element), *final(element), element_insertion(self.state, *old(element))),
    {
        let (id_attr, default_message_attr, key_attr) = self.get_element_attributes(&element.opening);
        proof {
            lemma_last_named(element.opening.attrs@, "defaultMessage"@);
            lemma_last_named(element.opening.attrs@, "key"@);
        }
        if id_attr.is_none() && default_message_attr.is_some() {
            if let Some(default_message) = default_message_attr {
                self.generate_id(element, default_message, key_attr);
            }
        }
    }

    /// The positions of the last `id`, `defaultMessage` and `key` attributes.
    pub fn get_element_attributes(&self, opening: &JsxOpeningElement) -> (r: (Option<usize>, Option<usize>, Option<usize>))
        ensures
            opt_index(r.0) == last_named(opening.attrs@, "id"@),
            opt_index(r.1) == last_named(opening.attrs@, "defaultMessage"@),
            opt_index(r.2) == last_named(opening.attrs@, "key"@),
    {
        let mut id_idx: Option<usize> = None;
        let mut default_message_idx: Option<usize> = None;
        let mut key_idx: Option<usize> = None;
        let attrs = &opening.attrs;
        let mut i: usize = 0;
        assert(attrs@.take(0) =~= Seq::<JsxAttrOrSpread>::empty());
        while i < attrs.len()
            invariant
                i <= attrs.len(),
                opt_index(id_idx) == last_named(attrs@.take(i as int), "id"@),
                opt_index(default_message_idx) == last_named(attrs@.take(i as int), "defaultMessage"@),
                opt_index(key_idx) == last_named(attrs@.take(i as int), "key"@),
            decreases attrs.len() - i,
        {
            assert(attrs@.take(i + 1).drop_last() =~= attrs@.take(i as int));
            assert(attrs@.take(i + 1).last() == attrs@[i as int]);
            proof {
                reveal_strlit("id");
                reveal_strlit("defaultMessage");
                reveal_strlit("key");
                assert("id"@.len() == 2);
                assert("key"@.len() == 3);
                assert("defaultMessage"@.len() == 14);
            }
            if let JsxAttrOrSpread::JSXAttr(jsx_attr) = &attrs[i] {
                if let JsxAttrName::Ident(name) = &jsx_attr.name {
                    if str_eq(name.sym.as_str(), "id") {
                        id_idx = Some(i);
                    } else if str_eq(name.sym.as_str(), "defaultMessage") {
                        default_message_idx = Some(i);
                    } else if str_eq(name.sym.as_str(), "key") {
                        key_idx = Some(i);
                    }
                }
            }
            i = i + 1;
        }
        assert(attrs@.take(i as int) =~= attrs@);
        (id_idx, default_message_idx, key_idx)
    }

    /// The text of an attribute value, when it can be read statically.
    pub fn extract_from_value(&self, jsx_attr: &JsxAttr) -> (r: Option<String>)
        ensures
            opt_seq(r) == attr_text(*jsx_attr),
    {
        match &jsx_attr.value {
            Some(JsxAttrValue::Str(s)) => Some(owned(s.value.as_str())),
            Some(JsxAttrValue::JSXExprContainer(c)) => match &c.expr {
                JsxExpr::Expr(e) => match &**e {
                    JsExpr::Lit(JsLit::Str(s)) => Some(owned(s.value.as_str())),
                    JsExpr::Tpl(t) => if t.exprs.len() == 0 {
                        Some(string_of(&quasis_text_exec(&t.quasis)))
                    } else {
                        None
                    },
                    _ => None,
                },
                _ => None,
            },
            _ => None,
        }
    }

    /// Inserts the ID, made of the path prefix and the key or the hash of the
    /// default message, right before the `defaultMessage` attribute.
    pub fn generate_id(&self, element: &mut JsxElement, default_message_idx: usize, key_idx: Option<usize>)
        requires
            default_message_idx < old(element).opening.attrs.len(),
            key_idx matches Some(k) ==> k < old(element).opening.attrs.len(),
            element_suffix_hashable(self.state, old(element).opening.attrs@, default_message_idx as int, opt_index(key_idx)),
        ensures
            old(element).opening.attrs@[default_message_idx as int] is JSXAttr ==> element_inserted(
                *old(element),
                *final(element),
                Some((default_message_idx as int, spec_get_prefix(self.state, Some(element_suffix(self.state, old(element).opening.attrs@, default_message_idx as int, opt_index(key_idx)))))),
            ),
            !(old(element).opening.attrs@[default_message_idx as int] is JSXAttr) ==> *final(element) == *old(element),
    {
        let suffix = match &element.opening.attrs[default_message_idx] {
            JsxAttrOrSpread::JSXAttr(jsx_attr) => {
                let from_key = if self.state.opts.use_key {
                    match key_idx {
                        Some(k) => match &element.opening.attrs[k] {
                            JsxAttrOrSpread::JSXAttr(key_jsx_attr) => self.extract_from_value(key_jsx_attr),
                            _ => None,
                        },
                        None => None,
                    }
                } else {
                    None
                };
                match from_key {
                    Some(t) => t,
                    None => match self.extract_from_value(jsx_attr) {
                        Some(message_value) => create_hash(message_value.as_str()),
                        None => String::new(),
                    },
                }
            },
            _ => return,
        };
        let prefix = get_prefix(&self.state, Some(suffix.as_str()));
        crate::rewrite::insert_id_attribute(element, default_message_idx, prefix.as_str());
    }
}

/// The name of a key that a descriptor field is read by: an identifier or a string.
pub open spec fn field_key_name(k: JsPropName) -> Option<Seq<char>> {
    match k {
        JsPropName::Ident(i) => Some(i.sym@),
        JsPropName::Str(s) => Some(s.value@),
        _ => None,
    }
}

/// The text a default message is hashed by: a string's value, the raw pieces
/// of a template literal, or else the printed expression `debug`.
pub open spec fn message_text(value: JsExpr, debug: Seq<char>) -> Seq<char> {
    match value {
        JsExpr::Lit(JsLit::Str(s)) => s.value@,
        JsExpr::Tpl(t) => quasis_text(t.quasis@),
        _ => debug,
    }
}

/// The default message and key read from a descriptor object.
pub struct FormatFields {
    pub default_message: Option<Seq<char>>,
    pub key: Option<Seq<char>>,
}

/// The fields after reading one more entry, whose value prints as `debug`.
pub open spec fn format_step(f: FormatFields, e: JsPropOrSpread, debug: Seq<char>) -> FormatFields {
    match e {
        JsPropOrSpread::Prop(p) => match *p {
            JsProp::KeyValue(kv) => match field_key_name(kv.key) {
                Some(k) => if k == "defaultMessage"@ {
                    FormatFields { default_message: Some(message_text(*kv.value, debug)), ..f }
                } else if k == "key"@ {
                    match *kv.value {
                        JsExpr::Lit(JsLit::Str(s)) => FormatFields { key: Some(s.value@), ..f },
                        _ => f,
                    }
                } else {
                    f
                },
                None => f,
            },
            _ => f,
        },
        _ => f,
    }
}

/// The fields of a list of entries, whose values print as `texts`; a later
/// entry with the same name wins.
pub open spec fn format_fields(props: Seq<JsPropOrSpread>, texts: Seq<String>) -> FormatFields
    decreases props.len(),
{
    if props.len() == 0 {
        FormatFields { default_message: None, key: None }
    } else {
        format_step(format_fields(props.drop_last(), texts), props.last(), texts[props.len() - 1]@)
    }
}

/// The ID a `formatMessage` descriptor gets: none when it has an `id` or no
/// default message; else the path prefix followed by its `key` (when `use_key`
/// asks for it and it has one) or the hash of its default message.
pub open spec fn format_object_id(state: PluginState, obj: JsObjectLit, texts: Seq<String>) -> Option<Seq<char>> {
    if has_top_level_id(obj) {
        None
    } else {
        let f = format_fields(obj.props@, texts);
        match f.default_message {
            Some(dm) => {
                let suffix = if state.opts.use_key {
                    match f.key {
                        Some(k) => k,
                        None => murmur_decimal(dm),
                    }
                } else {
                    murmur_decimal(dm)
                };
                Some(spec_get_prefix(state, Some(suffix)))
            },
            None => None,
        }
    }
}

/// The default message of a descriptor can be hashed whenever its hash is needed.
pub open spec fn format_object_hashable(state: PluginState, obj: JsObjectLit, texts: Seq<String>) -> bool {
    let f = format_fields(obj.props@, texts);
    match f.default_message {
        Some(dm) => !(state.opts.use_key && f.key is Some) ==> hashable(dm),
        None => true,
    }
}

/// The export name that `defineMessages` IDs carry.
pub open spec fn export_prefix(state: PluginState) -> Option<Seq<char>> {
    match state.opts.include_export_name {
        Some(IncludeExportName::Boolean(true)) => Some("messages"@),
        Some(IncludeExportName::All) => Some("messages"@),
        _ => None,
    }
}

/// The name of a `defineMessages` key: an identifier, a string or a number.
pub open spec fn define_key_name(k: JsPropName) -> Option<Seq<char>> {
    match k {
        JsPropName::Ident(i) => Some(i.sym@),
        JsPropName::Str(s) => Some(s.value@),
        JsPropName::Num(n) => Some(n@),
        _ => None,
    }
}

/// The ID of the `defineMessages` entry with key `k`.
pub open spec fn define_entry_id(state: PluginState, k: Seq<char>) -> Seq<char> {
    spec_get_prefix(
        state,
        Some(
            match export_prefix(state) {
                Some(e) => e + "."@ + k,
                None => k,
            },
        ),
    )
}

/// The entry `a` is what the transform makes of the `defineMessages` entry
/// `b`: an object value without an `id` gets one; a string value becomes an
/// object with the `id` and the string as `defaultMessage`; anything else stays.
pub open spec fn define_entry_rewritten(state: PluginState, b: JsPropOrSpread, a: JsPropOrSpread) -> bool {
    match b {
        JsPropOrSpread::Prop(bp) => match *bp {
            JsProp::KeyValue(kv) => match define_key_name(kv.key) {
                Some(k) => {
                    let id = define_entry_id(state, k);
                    match *kv.value {
                        JsExpr::Object(o) => if has_top_level_id(o) {
                            a == b
                        } else {
                            match a {
                                JsPropOrSpread::Prop(ap) => match *ap {
                                    JsProp::KeyValue(akv) => akv.key == kv.key && match *akv.value {
                                        JsExpr::Object(ao) => ao.span == o.span && id_appended(o.props@, ao.props@, id),
                                        _ => false,
                                    },
                                    _ => false,
                                },
                                _ => false,
                            }
                        },
                        JsExpr::Lit(JsLit::Str(s)) => match a {
                            JsPropOrSpread::Prop(ap) => match *ap {
                                JsProp::KeyValue(akv) => akv.key == kv.key && match *akv.value {
                                    JsExpr::Object(ao) => {
                                        &&& ao.span == dummy_sp()
                                        &&& ao.props@.len() == 2
                                        &&& is_id_entry(ao.props@[0], id)
                                        &&& ao.props@[1] matches JsPropOrSpread::Prop(p)
                                        &&& is_string_prop(*p, "defaultMessage"@, s.value@)
                                    },
                                    _ => false,
                                },
                                _ => false,
                            },
                            _ => false,
                        },
                        _ => a == b,
                    }
                },
                None => a == b,
            },
            _ => a == b,
        },
        _ => a == b,
    }
}

/// The call is `x.formatMessage(..)`, or a call of any imported name.
pub open spec fn is_format_call(names: Set<Seq<char>>, call: JsCallExpr) -> bool {
    crate::ast_call::is_member_format_message(call) || match crate::ast_call::callee_ident(call) {
        Some(n) => names.contains(n),
        None => false,
    }
}

/// The call is a call of the name `defineMessages`.
pub open spec fn is_define_call(call: JsCallExpr) -> bool {
    crate::ast_call::callee_ident(call) == Some("defineMessages"@)
}

/// The call `after` is what the transform makes of the `formatMessage` call
/// `before`, whose object's values print as `texts`.
pub open spec fn format_call_rewritten(
    state: PluginState,
    vars: Seq<(Seq<char>, JsObjectLit)>,
    before: JsCallExpr,
    after: JsCallExpr,
    texts: Seq<String>,
) -> bool {
    match *before.args@[0].expr {
        JsExpr::Object(o) => match format_object_id(state, o, texts) {
            Some(id) => exists|o2: JsObjectLit|
                #![trigger first_arg_replaced(before, after, JsExpr::Object(o2))]
                first_arg_replaced(before, after, JsExpr::Object(o2)) && o2.span == o.span && id_appended(o.props@, o2.props@, id),
            None => after == before,
        },
        JsExpr::Ident(i) => match object_lookup(vars, i.sym@) {
            Some(v) => exists|o2: JsObjectLit, c: Seq<JsPropOrSpread>|
                #![trigger first_arg_replaced(before, after, JsExpr::Object(o2)), same_props(v.props@, c)]
                {
                    &&& first_arg_replaced(before, after, JsExpr::Object(o2))
                    &&& o2.span == v.span
                    &&& same_props(v.props@, c)
                    &&& match format_object_id(state, v, texts) {
                        Some(id) => id_appended(c, o2.props@, id),
                        None => o2.props@ == c,
                    }
                },
            None => after == before,
        },
        _ => after == before,
    }
}

/// The object a `formatMessage` call passes, directly or through a variable.
pub open spec fn format_object(vars: Seq<(Seq<char>, JsObjectLit)>, call: JsCallExpr) -> Option<JsObjectLit> {
    crate::cli_visitors::passed_object(vars, call)
}

/// Inserts the IDs of `formatMessage` and `defineMessages` messages.
pub struct CallExpressionVisitor {
    pub state: PluginState,
    pub imported_names: NameSet,
    pub variable_declarations: Vec<(String, JsObjectLit)>,
}

impl CallExpressionVisitor {
    /// The variables seen so far.
    pub open spec fn vars(&self) -> Seq<(Seq<char>, JsObjectLit)> {
        declaration_list(self.variable_declarations@)
    }

    /// Records a variable initialized with an object literal.
    pub fn visit_mut_var_declarator(&mut self, declarator: JsVarDeclarator)
        ensures
            final(self).state == old(self).state,
            final(self).imported_names == old(self).imported_names,
            final(self).vars() == match declared_object(declarator) {
                Some(entry) => old(self).vars().push(entry),
                None => old(self).vars(),
            },
    {
        record_declarator(&mut self.variable_declarations, declarator);
    }

    /// Whether the call is a `formatMessage` call: a method named
    /// `formatMessage`, or a call of an imported name.
    pub fn is_format_message_call(&self, call_expr: &JsCallExpr) -> (r: bool)
        ensures
            r == is_format_call(self.imported_names@, *call_expr),
    {
        if let JsCallee::Expr(expr) = &call_expr.callee {
            if let JsExpr::Member(member_expr) = &**expr {
                if let JsMemberProp::Ident(prop) = &member_expr.prop {
                    if str_eq(prop.sym.as_str(), "formatMessage") {
                        return true;
                    }
                }
            }
            if let JsExpr::Ident(ident) = &**expr {
                if self.imported_names.contains(ident.sym.as_str()) {
                    return true;
                }
            }
        }
        false
    }

    /// Whether the call is a call of `defineMessages`.
    pub fn is_define_messages_call(&self, call_expr: &JsCallExpr) -> (r: bool)
        ensures
            r == is_define_call(*call_expr),
    {
        if let JsCallee::Expr(expr) = &call_expr.callee {
            if let JsExpr::Ident(ident) = &**expr {
                return str_eq(ident.sym.as_str(), "defineMessages");
            }
        }
        false
    }

    /// The ID a `formatMessage` descriptor gets, if any.
    fn format_object_id_exec(&self, obj: &JsObjectLit, value_texts: &Vec<String>) -> (r: Option<String>)
        requires
            value_texts.len() == obj.props.len(),
            format_object_hashable(self.state, *obj, value_texts@),
        ensures
            opt_seq(r) == format_object_id(self.state, *obj, value_texts@),
    {
        let mut i: usize = 0;
        while i < obj.props.len()
            invariant
                i <= obj.props.len(),
                forall|j: int| 0 <= j < i ==> !is_id_key_entry(#[trigger] obj.props@[j]),
            decreases obj.props.len() - i,
        {
            if let JsPropOrSpread::Prop(prop) = &obj.props[i] {
                if let JsProp::KeyValue(kv) = &**prop {
                    let found = match &kv.key {
                        JsPropName::Ident(ident) => str_eq(ident.sym.as_str(), "id"),
                        JsPropName::Str(s) => str_eq(s.value.as_str(), "id"),
                        _ => false,
                    };
                    if found {
                        assert(is_id_key_entry(obj.props@[i as int]));
                        return None;
                    }
                }
            }
            i = i + 1;
        }
        let mut default_message_value: Option<String> = None;
        let mut key_value: Option<String> = None;
        let mut k: usize = 0;
        assert(obj.props@.take(0) =~= Seq::<JsPropOrSpread>::empty());
        while k < obj.props.len()
            invariant
                k <= obj.props.len(),
                value_texts.len() == obj.props.len(),
                format_fields(obj.props@.take(k as int), value_texts@) == (FormatFields {
                    default_message: opt_seq(default_message_value),
                    key: opt_seq(key_value),
                }),
            decreases obj.props.len() - k,
        {
            assert(obj.props@.take(k + 1).drop_last() =~= obj.props@.take(k as int));
            assert(obj.props@.take(k + 1).last() == obj.props@[k as int]);
            if let JsPropOrSpread::Prop(prop) = &obj.props[k] {
                if let JsProp::KeyValue(kv) = &**prop {
                    let key_name: Option<&str> = match &kv.key {
                        JsPropName::Ident(ident) => Some(ident.sym.as_str()),
                        JsPropName::Str(s) => Some(s.value.as_str()),
                        _ => None,
                    };
                    if let Some(key_str) = key_name {
                        if str_eq(key_str, "defaultMessage") {
                            default_message_value = Some(
                                match &*kv.value {
                                    JsExpr::Lit(JsLit::Str(s)) => owned(s.value.as_str()),
                                    JsExpr::Tpl(t) => string_of(&quasis_text_exec(&t.quasis)),
                                    _ => owned(value_texts[k].as_str()),
                                },
                            );
                        } else if str_eq(key_str, "key") {
                            if let JsExpr::Lit(JsLit::Str(s)) = &*kv.value {
                                key_value = Some(owned(s.value.as_str()));
                            }
                        }
                    }
                }
            }
            k = k + 1;
        }
        assert(obj.props@.take(k as int) =~= obj.props@);
        match default_message_value {
            Some(default_message) => {
                let suffix = if self.state.opts.use_key {
                    match key_value {
                        Some(key) => key,
                        None => create_hash(default_message.as_str()),
                    }
                } else {
                    create_hash(default_message.as_str())
                };
                Some(get_prefix(&self.state, Some(suffix.as_str())))
            },
            None => None,
        }
    }

    /// Adds the ID to a `formatMessage` descriptor object that has none; the
    /// values of the object print as `value_texts`.
    pub fn process_format_message_object(&self, obj: &mut JsObjectLit, value_texts: &Vec<String>)
        requires
            value_texts.len() == old(obj).props.len(),
            format_object_hashable(self.state, *old(obj), value_texts@),
        ensures
            match format_object_id(self.state, *old(obj), value_texts@) {
                Some(id) => final(obj).span == old(obj).span && id_appended(old(obj).props@, final(obj).props@, id),
                None => *final(obj) == *old(obj),
            },
    {
        if let Some(id) = self.format_object_id_exec(obj, value_texts) {
            push_id(obj, id.as_str());
        }
    }

    /// Adds the ID to the descriptor of a `formatMessage` call; the values of
    /// the object it passes (directly or through a variable) print as
    /// `value_texts`.
    pub fn add_id_to_format_message(&self, call_expr: &mut JsCallExpr, value_texts: &Vec<String>)
        requires
            is_format_call(self.imported_names@, *old(call_expr)) ==> match format_object(self.vars(), *old(call_expr)) {
                Some(o) => value_texts.len() == o.props.len() && format_object_hashable(self.state, o, value_texts@),
                None => true,
            },
        ensures
            format_step_done(self.state, self.imported_names@, self.vars(), *old(call_expr), *final(call_expr), value_texts@),
    {
        if !self.is_format_message_call(call_expr) {
            return;
        }
        if call_expr.args.len() == 0 {
            return;
        }
        let ghost before = *call_expr;
        match &*call_expr.args[0].expr {
            JsExpr::Object(obj) => {
                if let Some(id) = self.format_object_id_exec(obj, value_texts) {
                    let e = take_first_arg(call_expr);
                    if let JsExpr::Object(mut obj) = e {
                        push_id(&mut obj, id.as_str());
                        let ghost o2 = obj;
                        put_first_arg(call_expr, JsExpr::Object(obj));
                        assert(first_arg_replaced(before, *call_expr, JsExpr::Object(o2))) by {
                            assert(call_expr.args@.skip(1) =~= before.args@.skip(1));
                        }
                    }
                }
            },
            JsExpr::Ident(ident) => {
                match find_declared(&self.variable_declarations, ident.sym.as_str()) {
                    Some(var_obj) => {
                        let ghost v = *var_obj;
                        let mut obj = copy_object(var_obj);
                        let ghost c = obj.props@;
                        match self.format_object_id_exec(var_obj, value_texts) {
                            Some(id) => push_id(&mut obj, id.as_str()),
                            None => {},
                        }
                        put_first_arg(call_expr, JsExpr::Object(obj));
                        assert(same_props(v.props@, c));
                    },
                    None => {},
                }
            },
            _ => {},
        }
    }

    /// Rewrites the object of a `defineMessages` call.
    pub fn add_id_to_define_message(&self, call_expr: &mut JsCallExpr)
        ensures
            define_step(self.state, *old(call_expr), *final(call_expr)),
    {
        if !self.is_define_messages_call(call_expr) {
            return;
        }
        if call_expr.args.len() == 0 {
            return;
        }
        if let JsExpr::Object(_) = &*call_expr.args[0].expr {
            let ghost before = *call_expr;
            let dummy_call = JsCallExpr {
                span: call_expr.span,
                callee: match &call_expr.callee {
                    JsCallee::Expr(e) => JsCallee::Expr(Box::new(copy_expr(e))),
                    JsCallee::Other(h) => JsCallee::Other(*h),
                },
                args: Vec::new(),
            };
            let e = take_first_arg(call_expr);
            if let JsExpr::Object(mut obj) = e {
                self.process_define_messages_object(&mut obj, &dummy_call);
                let ghost o2 = obj;
                put_first_arg(call_expr, JsExpr::Object(obj));
                assert(first_arg_replaced(before, *call_expr, JsExpr::Object(o2))) by {
                    assert(call_expr.args@.skip(1) =~= before.args@.skip(1));
                }
            }
        }
    }

    /// The ID of the `defineMessages` entry with key `key_name`.
    fn define_entry_id_exec(&self, key_name: &str) -> (r: String)
        ensures
            r@ == define_entry_id(self.state, key_name@),
    {
        let export_name = match &self.state.opts.include_export_name {
            Some(IncludeExportName::Boolean(true)) => true,
            Some(IncludeExportName::All) => true,
            _ => false,
        };
        if export_name {
            let mut full = chars_of("messages");
            push_all(&mut full, &chars_of("."));
            push_all(&mut full, &chars_of(key_name));
            get_prefix(&self.state, Some(string_of(&full).as_str()))
        } else {
            get_prefix(&self.state, Some(key_name))
        }
    }

    /// What the transform makes of one `defineMessages` entry.
    fn rewrite_entry(&self, entry: JsPropOrSpread) -> (r: JsPropOrSpread)
        ensures
            define_entry_rewritten(self.state, entry, r),
    {
        match entry {
            JsPropOrSpread::Prop(bp) => {
                let prop = *bp;
                match prop {
                    JsProp::KeyValue(kv) => {
                        let JsKeyValueProp { key, value } = kv;
                        let key_name = match &key {
                            JsPropName::Ident(ident) => Some(owned(ident.sym.as_str())),
                            JsPropName::Str(s) => Some(owned(s.value.as_str())),
                            JsPropName::Num(n) => Some(owned(n.as_str())),
                            JsPropName::Other(_) => None,
                        };
                        let key_name = match key_name {
                            Some(k) => k,
                            None => return JsPropOrSpread::Prop(Box::new(JsProp::KeyValue(JsKeyValueProp { key, value }))),
                        };
                        match *value {
                            JsExpr::Object(inner_obj) => {
                                if has_id_entry(&inner_obj) {
                                    JsPropOrSpread::Prop(Box::new(JsProp::KeyValue(JsKeyValueProp { key, value: Box::new(JsExpr::Object(inner_obj)) })))
                                } else {
                                    let id = self.define_entry_id_exec(key_name.as_str());
                                    let mut inner_obj = inner_obj;
                                    push_id(&mut inner_obj, id.as_str());
                                    JsPropOrSpread::Prop(Box::new(JsProp::KeyValue(JsKeyValueProp { key, value: Box::new(JsExpr::Object(inner_obj)) })))
                                }
                            },
                            JsExpr::Lit(JsLit::Str(s)) => {
                                let id = self.define_entry_id_exec(key_name.as_str());
                                let dm = JsProp::KeyValue(
                                    JsKeyValueProp {
                                        key: JsPropName::Str(JsStr { span: dummy_sp(), value: owned("defaultMessage") }),
                                        value: Box::new(JsExpr::Lit(JsLit::Str(JsStr { span: dummy_sp(), value: s.value }))),
                                    },
                                );
                                let props = vec![id_entry(id.as_str()), JsPropOrSpread::Prop(Box::new(dm))];
                                JsPropOrSpread::Prop(Box::new(JsProp::KeyValue(JsKeyValueProp { key, value: Box::new(JsExpr::Object(JsObjectLit { span: dummy_sp(), props })) })))
                            },
                            other => JsPropOrSpread::Prop(Box::new(JsProp::KeyValue(JsKeyValueProp { key, value: Box::new(other) }))),
                        }
                    },
                    other => JsPropOrSpread::Prop(Box::new(other)),
                }
            },
            other => other,
        }
    }

    /// Adds IDs to the entries of a `defineMessages` object: the path prefix
    /// and the entry's key (behind the export name when `include_export_name`
    /// asks for it).
    pub fn process_define_messages_object(&self, obj: &mut JsObjectLit, _call_expr: &JsCallExpr)
        ensures
            final(obj).span == old(obj).span,
            final(obj).props.len() == old(obj).props.len(),
            forall|i: int|
                0 <= i < old(obj).props.len() ==> define_entry_rewritten(self.state, #[trigger] old(obj).props@[i], final(obj).props@[i]),
    {
        let mut rest: Vec<JsPropOrSpread> = Vec::new();
        std::mem::swap(&mut rest, &mut obj.props);
        let ghost before = rest@;
        let mut done: Vec<JsPropOrSpread> = Vec::new();
        let mut i: usize = 0;
        let n = rest.len();
        while i < n
            invariant
                n == before.len(),
                i <= n,
                rest@ == before.skip(i as int),
                done.len() == i,
                forall|j: int| 0 <= j < i ==> define_entry_rewritten(self.state, #[trigger] before[j], done@[j]),
            decreases n - i,
        {
            let e = rest.remove(0);
            assert(e == before[i as int]);
            assert(rest@ =~= before.skip(i + 1));
            let r = self.rewrite_entry(e);
            done.push(r);
            i = i + 1;
        }
        obj.props = done;
    }

    /// Rewrites a call (after its children were visited); the values of the
    /// object a `formatMessage` call passes print as `value_texts`. The
    /// `formatMessage` rewrite comes first, then the `defineMessages` one.
    pub fn visit_mut_call_expr(&self, call_expr: &mut JsCallExpr, value_texts: &Vec<String>)
        requires
            is_format_call(self.imported_names@, *old(call_expr)) ==> match format_object(self.vars(), *old(call_expr)) {
                Some(o) => value_texts.len() == o.props.len() && format_object_hashable(self.state, o, value_texts@),
                None => true,
            },
        ensures
            exists|mid: JsCallExpr|
                #![trigger define_step(self.state, mid, *final(call_expr))]
                format_step_done(self.state, self.imported_names@, self.vars(), *old(call_expr), mid, value_texts@)
                    && define_step(self.state, mid, *final(call_expr)),
    {
        self.add_id_to_format_message(call_expr, value_texts);
        let ghost mid = *call_expr;
        self.add_id_to_define_message(call_expr);
        assert(format_step_done(self.state, self.imported_names@, self.vars(), *old(call_expr), mid, value_texts@));
        assert(define_step(self.state, mid, *call_expr));
    }
}

/// The call `after` is what the `formatMessage` rewrite makes of `before`.
pub open spec fn format_step_done(
    state: PluginState,
    names: Set<Seq<char>>,
    vars: Seq<(Seq<char>, JsObjectLit)>,
    before: JsCallExpr,
    after: JsCallExpr,
    texts: Seq<String>,
) -> bool {
    if is_format_call(names, before) && before.args.len() > 0 {
        format_call_rewritten(state, vars, before, after, texts)
    } else {
        after == before
    }
}

/// The call `after` is what the `defineMessages` rewrite makes of `before`.
pub open spec fn define_step(state: PluginState, before: JsCallExpr, after: JsCallExpr) -> bool {
    if is_define_call(before) && before.args.len() > 0 {
        match *before.args@[0].expr {
            JsExpr::Object(o) => exists|o2: JsObjectLit|
                #![trigger first_arg_replaced(before, after, JsExpr::Object(o2))]
                first_arg_replaced(before, after, JsExpr::Object(o2)) && o2.span == o.span && o2.props.len() == o.props.len()
                    && forall|i: int| 0 <= i < o.props.len() ==> define_entry_rewritten(state, #[trigger] o.props@[i], o2.props@[i]),
            _ => after == before,
        }
    } else {
        after == before
    }
}

/// Whether an object has a top-level `id` property.
fn has_id_entry(obj: &JsObjectLit) -> (r: bool)
    ensures
        r == has_top_level_id(*obj),
{
    let mut i: usize = 0;
    while i < obj.props.len()
        invariant
            i <= obj.props.len(),
            forall|j: int| 0 <= j < i ==> !is_id_key_entry(#[trigger] obj.props@[j]),
        decreases obj.props.len() - i,
    {
        if let JsPropOrSpread::Prop(prop) = &obj.props[i] {
            if let JsProp::KeyValue(kv) = &**prop {
                let found = match &kv.key {
                    JsPropName::Ident(ident) => str_eq(ident.sym.as_str(), "id"),
                    JsPropName::Str(s) => str_eq(s.value.as_str(), "id"),
                    _ => false,
                };
                if found {
                    assert(is_id_key_entry(obj.props@[i as int]));
                    return true;
                }
            }
        }
        i = i + 1;
    }
    false
}

/// The key of an entry, when it is a key-value property.
pub open spec fn entry_key(p: JsPropOrSpread) -> Option<JsPropName> {
    match p {
        JsPropOrSpread::Prop(b) => match *b {
            JsProp::KeyValue(kv) => Some(kv.key),
            _ => None,
        },
        _ => None,
    }
}

/// Law: rewriting a `defineMessages` object keeps its entries in order with
/// their keys; spreads and entries that are not key-value properties stay as
/// they were, and so does an entry whose object value already has an `id`.
pub proof fn law_define_rewrite_keeps_keys(state: PluginState, before: Seq<JsPropOrSpread>, after: Seq<JsPropOrSpread>)
    requires
        before.len() == after.len(),
        forall|i: int| 0 <= i < before.len() ==> define_entry_rewritten(state, #[trigger] before[i], after[i]),
    ensures
        forall|i: int| 0 <= i < before.len() ==> entry_key(#[trigger] after[i]) == entry_key(before[i]),
        forall|i: int| 0 <= i < before.len() && entry_key(#[trigger] before[i]) is None ==> after[i] == before[i],
{
    assert forall|i: int| 0 <= i < before.len() implies entry_key(#[trigger] after[i]) == entry_key(before[i]) && (entry_key(
        before[i],
    ) is None ==> after[i] == before[i]) by {
        assert(define_entry_rewritten(state, before[i], after[i]));
    }
}

/// The printed texts matter only at entries whose value is not a string.
proof fn lemma_format_fields_ignore_string_texts(props: Seq<JsPropOrSpread>, t1: Seq<String>, t2: Seq<String>)
    requires
        forall|i: int| 0 <= i < props.len() ==> t1[i]@ == t2[i]@ || entry_value_is_string(#[trigger] props[i]),
    ensures
        format_fields(props, t1) == format_fields(props, t2),
    decreases props.len(),
{
    if props.len() > 0 {
        let p = props.drop_last();
        assert forall|i: int| 0 <= i < p.len() implies t1[i]@ == t2[i]@ || entry_value_is_string(#[trigger] p[i]) by {
            assert(p[i] == props[i]);
        }
        lemma_format_fields_ignore_string_texts(p, t1, t2);
        assert(props.last() == props[props.len() - 1]);
    }
}

/// The entry is a property whose value is a string literal.
pub open spec fn entry_value_is_string(e: JsPropOrSpread) -> bool {
    match e {
        JsPropOrSpread::Prop(p) => match *p {
            JsProp::KeyValue(kv) => *kv.value is Lit && match *kv.value {
                JsExpr::Lit(l) => l is Str,
                _ => false,
            },
            _ => false,
        },
        _ => false,
    }
}

/// Law: the printed texts of a descriptor's values matter only for values that
/// are not strings: two text lists that agree wherever the value is not a
/// string literal give the same ID.
pub proof fn law_format_id_ignores_texts_of_strings(state: PluginState, obj: JsObjectLit, t1: Seq<String>, t2: Seq<String>)
    requires
        forall|i: int| 0 <= i < obj.props@.len() ==> t1[i]@ == t2[i]@ || entry_value_is_string(#[trigger] obj.props@[i]),
    ensures
        format_object_id(state, obj, t1) == format_object_id(state, obj, t2),
{
    lemma_format_fields_ignore_string_texts(obj.props@, t1, t2);
}

/// Law: a descriptor `{ defaultMessage: 's' }` gets the path prefix followed
/// by the decimal murmur3 hash of `s` itself (without `use_key`), whatever the
/// printed text of its value.
pub proof fn law_format_id_hashes_string_message(
    state: PluginState,
    obj: JsObjectLit,
    texts: Seq<String>,
    key: crate::syntax::JsIdent,
    s: JsStr,
)
    requires
        key.sym@ == "defaultMessage"@,
        !state.opts.use_key,
        obj.props@ == seq![
            JsPropOrSpread::Prop(
                Box::new(JsProp::KeyValue(JsKeyValueProp { key: JsPropName::Ident(key), value: Box::new(JsExpr::Lit(JsLit::Str(s))) })),
            ),
        ],
    ensures
        format_object_id(state, obj, texts) == Some(spec_get_prefix(state, Some(murmur_decimal(s.value@)))),
{
    reveal_strlit("defaultMessage");
    reveal_strlit("id");
    assert(key.sym@ != "id"@) by {
        assert(key.sym@.len() != "id"@.len());
    }
    assert(!has_top_level_id(obj)) by {
        if has_top_level_id(obj) {
            let i = choose|i: int| 0 <= i < obj.props@.len() && #[trigger] is_id_key_entry(obj.props@[i]);
            assert(i == 0);
        }
    }
    assert(obj.props@.drop_last() =~= Seq::<JsPropOrSpread>::empty());
}

} // verus!



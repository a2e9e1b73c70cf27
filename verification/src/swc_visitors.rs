//! The transform of the plugin's first interface, whose message hashes are
//! decimal: what it rewrites at each import, element and call.
//!
//! The caller walks the syntax tree (children before parents) and hands each
//! node to these methods.

use vstd::prelude::*;
use crate::ast_call::{
    analyze_define_messages_object_with, analyze_message_object_with, define_props_hashable, define_results,
    is_define_messages_call, is_format_message_call, message_object_hashable, spec_is_define_messages_call,
    spec_is_format_message_call, spec_message_object,
};
use crate::ast_import::{aliases_of, names_of, process_specifiers, ImportCollector};
use crate::ast_jsx::{analyze_jsx_element_with, jsx_message_hashable, spec_is_react_intl_component, spec_jsx_message};
use crate::ast_vars::{declaration_list, declared_object, find_declared, object_lookup, record_declarator};
use crate::gen_id::HashScheme;
use crate::names::{AliasMap, NameSet};
use crate::plugin_visitors::element_rewritten;
use crate::rewrite::{
    attr_inserted, entries_rewritten, first_arg_replaced, first_named, id_appended, none_named, push_id, put_first_arg,
    rewrite_define_object, take_first_arg,
};
use crate::syntax::{
    copy_object, same_props, JsCallExpr, JsExpr, JsImportDecl, JsxElement, JsxElementName, JsxOpeningElement, JsObjectLit, JsProp,
    JsPropName, JsPropOrSpread, JsVarDeclarator,
};
use crate::text::str_eq;
use crate::types::{react_components_contains, CoreState};

verus! {

/// Collects the names imported from the React Intl module (the module named
/// exactly `module_source_name`) and their aliases.
pub struct ImportVisitor {
    pub imported_names: NameSet,
    pub module_source_name: String,
    pub alias_map: AliasMap,
}

impl ImportVisitor {
    /// Adds the names and aliases of one import declaration from the module.
    pub fn visit_mut_import_decl(&mut self, import_decl: &JsImportDecl)
        ensures
            final(self).module_source_name == old(self).module_source_name,
            import_decl.src.value@ == old(self).module_source_name@ ==> {
                &&& final(self).imported_names@ == old(self).imported_names@.union(
                    names_of(import_decl.specifiers@).to_set(),
                )
                &&& final(self).alias_map.entries() == old(self).alias_map.entries() + aliases_of(
                    import_decl.specifiers@,
                )
            },
            import_decl.src.value@ != old(self).module_source_name@ ==> {
                &&& final(self).imported_names@ == old(self).imported_names@
                &&& final(self).alias_map.entries() == old(self).alias_map.entries()
            },
    {
        if str_eq(import_decl.src.value.as_str(), self.module_source_name.as_str()) {
            let (names, aliases) = process_specifiers(&import_decl.specifiers);
            self.imported_names.extend(names);
            self.alias_map.extend(aliases);
        }
    }
}

/// Inserts the IDs of React Intl components.
pub struct JSXVisitor {
    pub state: CoreState,
    pub imported_names: NameSet,
    pub alias_map: AliasMap,
}

/// The ID to insert into an element: that of a React Intl component imported
/// from the React Intl module whose message has no ID yet.
pub open spec fn element_id(names: Set<Seq<char>>, aliases: AliasMap, element: JsxElement, state: CoreState) -> Option<Seq<char>> {
    match element.opening.name {
        JsxElementName::Ident(n) => if spec_is_react_intl_component(names, aliases, n.sym@) {
            match spec_jsx_message(element, state, HashScheme::Decimal) {
                Some((m, true)) => Some(m.id),
                _ => None,
            }
        } else {
            None
        },
        _ => None,
    }
}

/// The ID that the transform would give an element can be hashed.
pub open spec fn element_hashable(names: Set<Seq<char>>, aliases: AliasMap, element: JsxElement, state: CoreState) -> bool {
    match element.opening.name {
        JsxElementName::Ident(n) => spec_is_react_intl_component(names, aliases, n.sym@) ==> jsx_message_hashable(
            element,
            state,
            HashScheme::Decimal,
        ),
        _ => true,
    }
}

impl JSXVisitor {
    /// Inserts the ID of an element that is an imported React Intl component
    /// (after its children were visited).
    pub fn visit_mut_jsx_element(&self, element: &mut JsxElement)
        requires
            element_hashable(self.imported_names@, self.alias_map, *old(element), self.state),
        ensures
            element_rewritten(*old(element), *final(element), element_id(self.imported_names@, self.alias_map, *old(element), self.state)),
    {
        let is_component = match &element.opening.name {
            JsxElementName::Ident(name) => {
                let name_str = name.sym.as_str();
                let component_name = match self.alias_map.get(name_str) {
                    Some(original) => original.as_str(),
                    None => name_str,
                };
                react_components_contains(component_name) && self.imported_names.contains(name_str)
            },
            _ => false,
        };
        if is_component {
            self.process_jsx_element(element);
        }
    }

    /// Inserts the generated ID of an element right before its `defaultMessage`.
    pub fn process_jsx_element(&self, element: &mut JsxElement)
        requires
            jsx_message_hashable(*old(element), self.state, HashScheme::Decimal),
        ensures
            element_rewritten(*old(element), *final(element), match spec_jsx_message(*old(element), self.state, HashScheme::Decimal) {
                Some((m, true)) => Some(m.id),
                _ => None,
            }),
    {
        if let Some((transformed, needs_insertion)) = analyze_jsx_element_with(element, &self.state, HashScheme::Decimal) {
            if needs_insertion {
                match self.find_attribute_index(&element.opening, "defaultMessage") {
                    Some(idx) => {
                        let ghost before = *element;
                        self.insert_id_attribute(element, idx, transformed.id.as_str());
                        assert forall|i: int| first_named(before.opening.attrs@, "defaultMessage"@, i) implies i == idx by {
                            if i < idx {
                                assert(!crate::rewrite::attr_named(before.opening.attrs@[i], "defaultMessage"@));
                            }
                            if i > idx {
                                assert(!crate::rewrite::attr_named(before.opening.attrs@[idx as int], "defaultMessage"@));
                            }
                        }
                    },
                    None => {},
                }
            }
        }
    }

    /// The position of the first attribute named `name`.
    pub fn find_attribute_index(&self, opening: &JsxOpeningElement, name: &str) -> (r: Option<usize>)
        ensures
            r matches Some(i) ==> first_named(opening.attrs@, name@, i as int),
            r is None ==> none_named(opening.attrs@, name@),
    {
        crate::rewrite::find_attribute_index(opening, name)
    }

    /// Inserts an `id` attribute with value `id` at position `idx`.
    pub fn insert_id_attribute(&self, element: &mut JsxElement, default_message_idx: usize, id: &str)
        requires
            default_message_idx <= old(element).opening.attrs.len(),
        ensures
            final(element).span == old(element).span,
            final(element).opening.name == old(element).opening.name,
            attr_inserted(old(element).opening.attrs@, final(element).opening.attrs@, default_message_idx as int, id@),
    {
        crate::rewrite::insert_id_attribute(element, default_message_idx, id)
    }
}

/// Inserts the IDs of `formatMessage` and `defineMessages` messages.
pub struct CallExpressionVisitor {
    pub state: CoreState,
    pub imported_names: NameSet,
    pub alias_map: AliasMap,
    pub variable_declarations: Vec<(String, JsObjectLit)>,
}

impl ImportCollector for CallExpressionVisitor {
    open spec fn collected_names(&self) -> Set<Seq<char>> {
        self.imported_names@
    }

    open spec fn collected_aliases(&self) -> AliasMap {
        self.alias_map
    }

    fn get_imported_names(&self) -> (r: &NameSet) {
        &self.imported_names
    }

    fn get_alias_map(&self) -> (r: &AliasMap) {
        &self.alias_map
    }
}

/// The object has a property named `id` (by an identifier or a string key).
pub open spec fn has_top_level_id(o: JsObjectLit) -> bool {
    exists|i: int| 0 <= i < o.props@.len() && #[trigger] is_id_key_entry(o.props@[i])
}

/// The entry is a property whose key is the identifier or string `id`.
pub open spec fn is_id_key_entry(e: JsPropOrSpread) -> bool {
    match e {
        JsPropOrSpread::Prop(p) => match *p {
            JsProp::KeyValue(kv) => match kv.key {
                JsPropName::Ident(i) => i.sym@ == "id"@,
                JsPropName::Str(s) => s.value@ == "id"@,
                _ => false,
            },
            _ => false,
        },
        _ => false,
    }
}

/// The call `after` is what the transform makes of the `formatMessage` call
/// `before`: an object passed directly gets the `id` property when it needs
/// one; a variable is replaced by a copy of its object, with the `id` property
/// when it needs one.
pub open spec fn format_rewritten(vars: Seq<(Seq<char>, JsObjectLit)>, before: JsCallExpr, after: JsCallExpr, state: CoreState) -> bool {
    match *before.args@[0].expr {
        JsExpr::Object(o) => match spec_message_object(o, state, None, HashScheme::Decimal) {
            Some((m, true)) => exists|o2: JsObjectLit|
                #![trigger first_arg_replaced(before, after, JsExpr::Object(o2))]
                first_arg_replaced(before, after, JsExpr::Object(o2)) && o2.span == o.span && id_appended(o.props@, o2.props@, m.id),
            _ => after == before,
        },
        JsExpr::Ident(i) => match object_lookup(vars, i.sym@) {
            Some(v) => exists|o2: JsObjectLit, c: Seq<JsPropOrSpread>|
                #![trigger first_arg_replaced(before, after, JsExpr::Object(o2)), same_props(v.props@, c)]
                {
                    &&& first_arg_replaced(before, after, JsExpr::Object(o2))
                    &&& o2.span == v.span
                    &&& same_props(v.props@, c)
                    &&& match spec_message_object(v, state, None, HashScheme::Decimal) {
                        Some((m, true)) => id_appended(c, o2.props@, m.id),
                        _ => o2.props@ == c,
                    }
                },
            None => after == before,
        },
        _ => after == before,
    }
}

/// The call `after` is what the transform makes of the `defineMessages` call
/// `before`: an object passed directly without a top-level `id` has its
/// entries rewritten by their analysis; a variable is replaced by a copy of
/// its object, rewritten the same way.
pub open spec fn define_rewritten(vars: Seq<(Seq<char>, JsObjectLit)>, before: JsCallExpr, after: JsCallExpr, state: CoreState) -> bool {
    match *before.args@[0].expr {
        JsExpr::Object(o) => {
            let msgs = define_results(o.props@, state, HashScheme::Decimal);
            if has_top_level_id(o) || msgs.len() == 0 {
                after == before
            } else {
                exists|o2: JsObjectLit|
                    #![trigger first_arg_replaced(before, after, JsExpr::Object(o2))]
                    first_arg_replaced(before, after, JsExpr::Object(o2)) && o2.span == o.span && entries_rewritten(o.props@, o2.props@, msgs)
            }
        },
        JsExpr::Ident(i) => match object_lookup(vars, i.sym@) {
            Some(v) => {
                let msgs = define_results(v.props@, state, HashScheme::Decimal);
                exists|o2: JsObjectLit, c: Seq<JsPropOrSpread>|
                    #![trigger first_arg_replaced(before, after, JsExpr::Object(o2)), same_props(v.props@, c)]
                    {
                        &&& first_arg_replaced(before, after, JsExpr::Object(o2))
                        &&& o2.span == v.span
                        &&& same_props(v.props@, c)
                        &&& if msgs.len() == 0 {
                            o2.props@ == c
                        } else {
                            entries_rewritten(c, o2.props@, msgs)
                        }
                    }
            },
            None => after == before,
        },
        _ => after == before,
    }
}

/// The object a call passes first, directly or through a variable.
pub open spec fn resolved_object(vars: Seq<(Seq<char>, JsObjectLit)>, call: JsCallExpr) -> Option<JsObjectLit> {
    crate::cli_visitors::passed_object(vars, call)
}

/// The IDs that the transform would give the messages of a call can be hashed.
pub open spec fn call_hashable(vars: Seq<(Seq<char>, JsObjectLit)>, call: JsCallExpr, state: CoreState) -> bool {
    match resolved_object(vars, call) {
        Some(o) => message_object_hashable(o, state, None, HashScheme::Decimal) && define_props_hashable(
            o.props@,
            state,
            HashScheme::Decimal,
        ),
        None => true,
    }
}

/// Whether an object has a top-level `id` property.
fn has_top_level_id_exec(obj: &JsObjectLit) -> (r: bool)
    ensures
        r == has_top_level_id(*obj),
{
    let mut i: usize = 0;
    while i < obj.props.len()
        invariant
            i <= obj.props.len(),
            forall|j: int| 0 <= j < i ==> !is_id_key_entry(#[trigger] obj.props@[j]),
        decreases obj.props.len() - i,
    {
        if let JsPropOrSpread::Prop(prop) = &obj.props[i] {
            if let JsProp::KeyValue(kv) = &**prop {
                let found = match &kv.key {
                    JsPropName::Ident(ident) => str_eq(ident.sym.as_str(), "id"),
                    JsPropName::Str(s) => str_eq(s.value.as_str(), "id"),
                    _ => false,
                };
                if found {
                    assert(is_id_key_entry(obj.props@[i as int]));
                    return true;
                }
            }
        }
        i = i + 1;
    }
    false
}

impl CallExpressionVisitor {
    /// The variables seen so far.
    pub open spec fn vars(&self) -> Seq<(Seq<char>, JsObjectLit)> {
        declaration_list(self.variable_declarations@)
    }

    /// Records a variable initialized with an object literal.
    pub fn visit_mut_var_declarator(&mut self, declarator: JsVarDeclarator)
        ensures
            final(self).state == old(self).state,
            final(self).imported_names == old(self).imported_names,
            final(self).alias_map == old(self).alias_map,
            final(self).vars() == match declared_object(declarator) {
                Some(entry) => old(self).vars().push(entry),
                None => old(self).vars(),
            },
    {
        record_declarator(&mut self.variable_declarations, declarator);
    }

    /// Whether the call is a `formatMessage` call.
    pub fn is_format_message_call(&self, call_expr: &JsCallExpr) -> (r: bool)
        ensures
            r == spec_is_format_message_call(self.imported_names@, self.alias_map, *call_expr),
    {
        is_format_message_call(self, call_expr)
    }

    /// Whether the call is a `defineMessages` call.
    pub fn is_define_messages_call(&self, call_expr: &JsCallExpr) -> (r: bool)
        ensures
            r == spec_is_define_messages_call(self.imported_names@, self.alias_map, *call_expr),
    {
        is_define_messages_call(self, call_expr)
    }

    /// Adds the generated ID to a `formatMessage` descriptor object that needs one.
    pub fn process_format_message_object_with_analysis(&self, obj: &mut JsObjectLit)
        requires
            message_object_hashable(*old(obj), self.state, None, HashScheme::Decimal),
        ensures
            match spec_message_object(*old(obj), self.state, None, HashScheme::Decimal) {
                Some((m, true)) => final(obj).span == old(obj).span && id_appended(old(obj).props@, final(obj).props@, m.id),
                _ => *final(obj) == *old(obj),
            },
    {
        if let Some((transformed, true)) = analyze_message_object_with(obj, &self.state, None, HashScheme::Decimal) {
            push_id(obj, transformed.id.as_str());
        }
    }

    /// Rewrites the entries of a `defineMessages` object by their analysis.
    pub fn process_define_messages_object_with_analysis(&self, obj: &mut JsObjectLit)
        requires
            define_props_hashable(old(obj).props@, self.state, HashScheme::Decimal),
        ensures
            define_results(old(obj).props@, self.state, HashScheme::Decimal).len() == 0 ==> *final(obj) == *old(obj),
            define_results(old(obj).props@, self.state, HashScheme::Decimal).len() > 0 ==> final(obj).span == old(obj).span
                && entries_rewritten(old(obj).props@, final(obj).props@, define_results(old(obj).props@, self.state, HashScheme::Decimal)),
    {
        let messages = analyze_define_messages_object_with(obj, &self.state, HashScheme::Decimal);
        if messages.len() == 0 {
            return;
        }
        rewrite_define_object(obj, &messages);
    }

    /// Adds the generated ID to the descriptor of a `formatMessage` call.
    pub fn add_id_to_format_message(&self, call_expr: &mut JsCallExpr)
        requires
            spec_is_format_message_call(self.imported_names@, self.alias_map, *old(call_expr)) ==> call_hashable(
                self.vars(),
                *old(call_expr),
                self.state,
            ),
        ensures
            (spec_is_format_message_call(self.imported_names@, self.alias_map, *old(call_expr)) && old(call_expr).args.len() > 0)
                ==> format_rewritten(self.vars(), *old(call_expr), *final(call_expr), self.state),
            !(spec_is_format_message_call(self.imported_names@, self.alias_map, *old(call_expr)) && old(call_expr).args.len() > 0)
                ==> *final(call_expr) == *old(call_expr),
    {
        if !self.is_format_message_call(call_expr) {
            return;
        }
        if call_expr.args.len() == 0 {
            return;
        }
        let ghost before = *call_expr;
        match &*call_expr.args[0].expr {
            JsExpr::Object(obj) => {
                let needs = match analyze_message_object_with(obj, &self.state, None, HashScheme::Decimal) {
                    Some((_, true)) => true,
                    _ => false,
                };
                if needs {
                    let e = take_first_arg(call_expr);
                    if let JsExpr::Object(mut obj) = e {
                        self.process_format_message_object_with_analysis(&mut obj);
                        let ghost o2 = obj;
                        put_first_arg(call_expr, JsExpr::Object(obj));
                        assert(first_arg_replaced(before, *call_expr, JsExpr::Object(o2))) by {
                            assert(call_expr.args@.skip(1) =~= before.args@.skip(1));
                        }
                    }
                }
            },
            JsExpr::Ident(ident) => {
                match find_declared(&self.variable_declarations, ident.sym.as_str()) {
                    Some(var_obj) => {
                        let ghost v = *var_obj;
                        let mut obj = copy_object(var_obj);
                        let ghost c = obj.props@;
                        match analyze_message_object_with(var_obj, &self.state, None, HashScheme::Decimal) {
                            Some((transformed, true)) => push_id(&mut obj, transformed.id.as_str()),
                            _ => {},
                        }
                        put_first_arg(call_expr, JsExpr::Object(obj));
                        assert(same_props(v.props@, c));
                    },
                    None => {},
                }
            },
            _ => {},
        }
    }

    /// Rewrites the object of a `defineMessages` call.
    pub fn add_id_to_define_message(&self, call_expr: &mut JsCallExpr)
        requires
            spec_is_define_messages_call(self.imported_names@, self.alias_map, *old(call_expr)) ==> call_hashable(
                self.vars(),
                *old(call_expr),
                self.state,
            ),
        ensures
            (spec_is_define_messages_call(self.imported_names@, self.alias_map, *old(call_expr)) && old(call_expr).args.len() > 0)
                ==> define_rewritten(self.vars(), *old(call_expr), *final(call_expr), self.state),
            !(spec_is_define_messages_call(self.imported_names@, self.alias_map, *old(call_expr)) && old(call_expr).args.len() > 0)
                ==> *final(call_expr) == *old(call_expr),
    {
        if !self.is_define_messages_call(call_expr) {
            return;
        }
        if call_expr.args.len() == 0 {
            return;
        }
        let ghost before = *call_expr;
        match &*call_expr.args[0].expr {
            JsExpr::Object(obj) => {
                if has_top_level_id_exec(obj) {
                    return;
                }
                let messages = analyze_define_messages_object_with(obj, &self.state, HashScheme::Decimal);
                if messages.len() == 0 {
                    return;
                }
                let e = take_first_arg(call_expr);
                if let JsExpr::Object(mut obj) = e {
                    rewrite_define_object(&mut obj, &messages);
                    let ghost o2 = obj;
                    put_first_arg(call_expr, JsExpr::Object(obj));
                    assert(first_arg_replaced(before, *call_expr, JsExpr::Object(o2))) by {
                        assert(call_expr.args@.skip(1) =~= before.args@.skip(1));
                    }
                }
            },
            JsExpr::Ident(ident) => {
                match find_declared(&self.variable_declarations, ident.sym.as_str()) {
                    Some(var_obj) => {
                        let ghost v = *var_obj;
                        let mut obj = copy_object(var_obj);
                        let ghost c = obj.props@;
                        let messages = analyze_define_messages_object_with(var_obj, &self.state, HashScheme::Decimal);
                        if messages.len() > 0 {
                            rewrite_define_object(&mut obj, &messages);
                        }
                        put_first_arg(call_expr, JsExpr::Object(obj));
                        assert(same_props(v.props@, c));
                    },
                    None => {},
                }
            },
            _ => {},
        }
    }

    /// Rewrites a call (after its children were visited).
    pub fn visit_mut_call_expr(&self, call_expr: &mut JsCallExpr)
        requires
            call_hashable(self.vars(), *old(call_expr), self.state),
        ensures
            (spec_is_format_message_call(self.imported_names@, self.alias_map, *old(call_expr)) && old(call_expr).args.len() > 0)
                ==> format_rewritten(self.vars(), *old(call_expr), *final(call_expr), self.state),
            (spec_is_define_messages_call(self.imported_names@, self.alias_map, *old(call_expr)) && old(call_expr).args.len() > 0)
                ==> define_rewritten(self.vars(), *old(call_expr), *final(call_expr), self.state),
            !(spec_is_format_message_call(self.imported_names@, self.alias_map, *old(call_expr)) && old(call_expr).args.len() > 0)
                && !(spec_is_define_messages_call(self.imported_names@, self.alias_map, *old(call_expr)) && old(call_expr).args.len() > 0)
                ==> *final(call_expr) == *old(call_expr),
    {
        let ghost before = *call_expr;
        proof {
            crate::plugin_visitors::lemma_format_not_define(self.imported_names@, self.alias_map, before);
        }
        self.add_id_to_format_message(call_expr);
        assert(call_expr.callee == before.callee);
        assert(crate::ast_call::imported_callee(self.imported_names@, self.alias_map, *call_expr)
            == crate::ast_call::imported_callee(self.imported_names@, self.alias_map, before));
        self.add_id_to_define_message(call_expr);
    }
}

} // verus!

//! The transform: what it rewrites at each element and call of a module.
//!
//! The caller walks the syntax tree (children before parents) and hands each
//! node to these methods, which insert the generated IDs.

use vstd::prelude::*;
use crate::ast_call::{
    analyze_define_messages_object_with, analyze_message_object_with, define_props_hashable, define_results,
    is_define_messages_call, is_format_message_call, keyed_messages, message_object_hashable,
    spec_is_define_messages_call, spec_is_format_message_call, spec_message_object,
};
use crate::ast_import::ImportVisitor;
use crate::ast_jsx::{analyze_jsx_element_with, is_react_intl_component, jsx_message_hashable, spec_is_react_intl_component, spec_jsx_message};
use crate::ast_vars::{declared_object, VarCollector, VarVisitor};
use crate::cli_visitors::passed_object;
use crate::gen_id::HashScheme;
use crate::rewrite::{
    attr_inserted, entries_rewritten, find_attribute_index, first_arg_replaced, first_named, id_appended,
    insert_id_attribute, none_named, push_id, put_first_arg, rewrite_define_object, take_first_arg,
};
use crate::syntax::{copy_object, same_props, JsCallExpr, JsExpr, JsxElement, JsxElementName, JsObjectLit, JsVarDeclarator};
use crate::types::{CoreState, MessageSpec, TransformedMessageData};

verus! {

/// The ID to insert into an element: that of a React Intl component imported
/// from the React Intl module whose message has no ID yet.
pub open spec fn element_id_to_insert(iv: ImportVisitor, element: JsxElement, state: CoreState) -> Option<Seq<char>> {
    match element.opening.name {
        JsxElementName::Ident(n) => if spec_is_react_intl_component(iv.imported_names@, iv.alias_map, n.sym@) {
            match spec_jsx_message(element, state, HashScheme::Base64) {
                Some((m, true)) => Some(m.id),
                _ => None,
            }
        } else {
            None
        },
        _ => None,
    }
}

/// The ID that the transform would give an element can be hashed.
pub open spec fn element_rewrite_hashable(iv: ImportVisitor, element: JsxElement, state: CoreState) -> bool {
    match element.opening.name {
        JsxElementName::Ident(n) => spec_is_react_intl_component(iv.imported_names@, iv.alias_map, n.sym@)
            ==> jsx_message_hashable(element, state, HashScheme::Base64),
        _ => true,
    }
}

/// The element `after` is what the transform makes of `before` when it is to
/// get `id`: the `id` attribute goes right before the first `defaultMessage`
/// attribute; without one, nothing changes.
pub open spec fn element_rewritten(before: JsxElement, after: JsxElement, id: Option<Seq<char>>) -> bool {
    match id {
        Some(id) => {
            &&& none_named(before.opening.attrs@, "defaultMessage"@) ==> after == before
            &&& forall|i: int|
                first_named(before.opening.attrs@, "defaultMessage"@, i) ==> {
                    &&& after.span == before.span
                    &&& after.opening.name == before.opening.name
                    &&& attr_inserted(before.opening.attrs@, after.opening.attrs@, i, id)
                }
        },
        None => after == before,
    }
}

/// Inserts the IDs of React Intl components.
pub struct JSXVisitor<'a> {
    pub state: &'a CoreState,
    pub import_visitor: &'a ImportVisitor<'a>,
}

impl<'a> JSXVisitor<'a> {
    pub fn new(state: &'a CoreState, import_visitor: &'a ImportVisitor<'a>) -> (r: Self)
        ensures
            r.state == state,
            r.import_visitor == import_visitor,
    {
        JSXVisitor { state, import_visitor }
    }

    /// Inserts the ID of an element that is a React Intl component whose
    /// message has none (after its children were visited).
    pub fn visit_mut_jsx_element(&self, element: &mut JsxElement)
        requires
            element_rewrite_hashable(*self.import_visitor, *old(element), *self.state),
        ensures
            element_rewritten(*old(element), *final(element), element_id_to_insert(*self.import_visitor, *old(element), *self.state)),
    {
        let is_component = match &element.opening.name {
            JsxElementName::Ident(name) => is_react_intl_component(self.import_visitor, name),
            _ => false,
        };
        if !is_component {
            return;
        }
        if let Some((transformed, needs_insertion)) = analyze_jsx_element_with(element, self.state, HashScheme::Base64) {
            if needs_insertion {
                match find_attribute_index(&element.opening, "defaultMessage") {
                    Some(idx) => {
                        let ghost before = *element;
                        insert_id_attribute(element, idx, transformed.id.as_str());
                        assert forall|i: int| first_named(before.opening.attrs@, "defaultMessage"@, i) implies i == idx by {
                            if i < idx {
                                assert(!crate::rewrite::attr_named(before.opening.attrs@[i], "defaultMessage"@));
                            }
                            if i > idx {
                                assert(!crate::rewrite::attr_named(before.opening.attrs@[idx as int], "defaultMessage"@));
                            }
                        }
                    },
                    None => {},
                }
            }
        }
    }
}

/// The ID to add to the descriptor of a `formatMessage` call: that of its
/// object (passed directly or through a variable) when it has none yet.
pub open spec fn format_id_to_insert(vars: Seq<(Seq<char>, JsObjectLit)>, call: JsCallExpr, state: CoreState) -> Option<Seq<char>> {
    match passed_object(vars, call) {
        Some(o) => match spec_message_object(o, state, None, HashScheme::Base64) {
            Some((m, true)) => Some(m.id),
            _ => None,
        },
        None => None,
    }
}

/// The call `after` is what the transform makes of the `formatMessage` call
/// `before`: an object passed directly gets the `id` property; a call with a
/// variable, or one that needs no ID, stays as it is.
pub open spec fn format_call_rewritten(before: JsCallExpr, after: JsCallExpr, id: Option<Seq<char>>) -> bool {
    match (id, crate::ast_call::first_object(before)) {
        (Some(id), Some(o)) => exists|o2: JsObjectLit|
            #![trigger first_arg_replaced(before, after, JsExpr::Object(o2))]
            first_arg_replaced(before, after, JsExpr::Object(o2)) && o2.span == o.span && id_appended(o.props@, o2.props@, id),
        _ => after == before,
    }
}

/// The messages that the transform finds in a `defineMessages` call.
pub open spec fn define_call_results(vars: Seq<(Seq<char>, JsObjectLit)>, call: JsCallExpr, state: CoreState) -> Seq<(Seq<char>, MessageSpec, bool)> {
    match passed_object(vars, call) {
        Some(o) => define_results(o.props@, state, HashScheme::Base64),
        None => Seq::empty(),
    }
}

/// The call `after` is what the transform makes of the `defineMessages` call
/// `before`, given the variables seen so far: the object passed (directly, or
/// a copy of the variable's object) has its entries rewritten by the analysis
/// results; without results nothing changes.
pub open spec fn define_call_rewritten(vars: Seq<(Seq<char>, JsObjectLit)>, before: JsCallExpr, after: JsCallExpr, state: CoreState) -> bool {
    let msgs = define_call_results(vars, before, state);
    if msgs.len() == 0 || before.args.len() == 0 {
        after == before
    } else {
        match *before.args@[0].expr {
            JsExpr::Object(o) => exists|o2: JsObjectLit|
                #![trigger first_arg_replaced(before, after, JsExpr::Object(o2))]
                first_arg_replaced(before, after, JsExpr::Object(o2)) && o2.span == o.span && entries_rewritten(o.props@, o2.props@, msgs),
            JsExpr::Ident(i) => match crate::ast_vars::object_lookup(vars, i.sym@) {
                Some(v) => exists|o2: JsObjectLit, c: Seq<crate::syntax::JsPropOrSpread>|
                    #![trigger first_arg_replaced(before, after, JsExpr::Object(o2)), same_props(v.props@, c)]
                    first_arg_replaced(before, after, JsExpr::Object(o2)) && o2.span == v.span && same_props(v.props@, c)
                        && entries_rewritten(c, o2.props@, msgs),
                None => after == before,
            },
            _ => after == before,
        }
    }
}

/// The IDs that the transform would give the messages of a call can be hashed.
pub open spec fn call_rewrite_hashable(vars: Seq<(Seq<char>, JsObjectLit)>, call: JsCallExpr, state: CoreState) -> bool {
    match passed_object(vars, call) {
        Some(o) => message_object_hashable(o, state, None, HashScheme::Base64) && define_props_hashable(
            o.props@,
            state,
            HashScheme::Base64,
        ),
        None => true,
    }
}

/// Inserts the IDs of `formatMessage` and `defineMessages` messages.
pub struct CallExpressionVisitor<'a> {
    pub state: &'a CoreState,
    pub import_visitor: &'a ImportVisitor<'a>,
    pub var_visitor: VarVisitor<'a>,
}

impl<'a> CallExpressionVisitor<'a> {
    pub fn new(state: &'a CoreState, import_visitor: &'a ImportVisitor<'a>) -> (r: Self)
        ensures
            r.state == state,
            r.import_visitor == import_visitor,
            r.var_visitor.entries().len() == 0,
    {
        CallExpressionVisitor { state, import_visitor, var_visitor: VarVisitor::new(state) }
    }

    /// Records a variable initialized with an object literal.
    pub fn visit_mut_var_declarator(&mut self, declarator: JsVarDeclarator)
        ensures
            final(self).state == old(self).state,
            final(self).import_visitor == old(self).import_visitor,
            final(self).var_visitor.entries() == match declared_object(declarator) {
                Some(entry) => old(self).var_visitor.entries().push(entry),
                None => old(self).var_visitor.entries(),
            },
    {
        self.var_visitor.track_declarator(declarator);
    }

    /// The object a call passes first, directly or through a variable.
    fn passed_object_exec<'b>(&'b self, call_expr: &'b JsCallExpr) -> (r: Option<&'b JsObjectLit>)
        ensures
            r matches Some(o) ==> passed_object(self.var_visitor.entries(), *call_expr) == Some(*o),
            r is None ==> passed_object(self.var_visitor.entries(), *call_expr) is None,
    {
        if call_expr.args.len() == 0 {
            return None;
        }
        match &*call_expr.args[0].expr {
            JsExpr::Object(o) => Some(o),
            JsExpr::Ident(i) => self.var_visitor.get_object(i.sym.as_str()),
            _ => None,
        }
    }

    /// Adds the generated ID to the descriptor of a `formatMessage` call.
    pub fn process_format_message(&self, call_expr: &mut JsCallExpr)
        requires
            call_rewrite_hashable(self.var_visitor.entries(), *old(call_expr), *self.state),
        ensures
            format_call_rewritten(
                *old(call_expr),
                *final(call_expr),
                format_id_to_insert(self.var_visitor.entries(), *old(call_expr), *self.state),
            ),
    {
        let analysis = match self.passed_object_exec(call_expr) {
            Some(obj) => analyze_message_object_with(obj, self.state, None, HashScheme::Base64),
            None => None,
        };
        if let Some((transformed, true)) = analysis {
            if call_expr.args.len() > 0 {
                if let JsExpr::Object(_) = &*call_expr.args[0].expr {
                    let ghost before = *call_expr;
                    let e = take_first_arg(call_expr);
                    if let JsExpr::Object(mut obj) = e {
                        let ghost o = obj;
                        push_id(&mut obj, transformed.id.as_str());
                        let ghost o2 = obj;
                        put_first_arg(call_expr, JsExpr::Object(obj));
                        assert(first_arg_replaced(before, *call_expr, JsExpr::Object(o2))) by {
                            assert(call_expr.args@.skip(1) =~= before.args@.skip(1));
                        }
                    }
                }
            }
        }
    }

    /// Rewrites the entries of a `defineMessages` object by the analysis
    /// results `messages`: an object value gets the `id` property, a string or
    /// template literal becomes an object with the `id` and the literal as
    /// `defaultMessage`.
    pub fn apply_define_messages_transformation(
        &self,
        obj: &mut JsObjectLit,
        messages: &Vec<(String, TransformedMessageData, bool)>,
    )
        ensures
            final(obj).span == old(obj).span,
            entries_rewritten(old(obj).props@, final(obj).props@, keyed_messages(messages@)),
    {
        rewrite_define_object(obj, messages);
    }

    /// Rewrites the object of a `defineMessages` call by its analysis.
    pub fn process_define_messages(&self, call_expr: &mut JsCallExpr)
        requires
            call_rewrite_hashable(self.var_visitor.entries(), *old(call_expr), *self.state),
        ensures
            define_call_rewritten(self.var_visitor.entries(), *old(call_expr), *final(call_expr), *self.state),
    {
        let analysis = match self.passed_object_exec(call_expr) {
            Some(obj) => analyze_define_messages_object_with(obj, self.state, HashScheme::Base64),
            None => Vec::new(),
        };
        proof {
            if passed_object(self.var_visitor.entries(), *call_expr) is None {
                assert(keyed_messages(analysis@) =~= Seq::<(Seq<char>, MessageSpec, bool)>::empty());
            }
        }
        if analysis.len() == 0 || call_expr.args.len() == 0 {
            return;
        }
        let ghost before = *call_expr;
        match &*call_expr.args[0].expr {
            JsExpr::Object(_) => {
                let e = take_first_arg(call_expr);
                if let JsExpr::Object(mut obj) = e {
                    self.apply_define_messages_transformation(&mut obj, &analysis);
                    let ghost o2 = obj;
                    put_first_arg(call_expr, JsExpr::Object(obj));
                    assert(first_arg_replaced(before, *call_expr, JsExpr::Object(o2))) by {
                        assert(call_expr.args@.skip(1) =~= before.args@.skip(1));
                    }
                }
            },
            JsExpr::Ident(ident) => {
                match self.var_visitor.get_object(ident.sym.as_str()) {
                    Some(var_obj) => {
                        let mut obj = copy_object(var_obj);
                        let ghost c = obj.props@;
                        self.apply_define_messages_transformation(&mut obj, &analysis);
                        let ghost o2 = obj;
                        put_first_arg(call_expr, JsExpr::Object(obj));
                        assert(same_props(var_obj.props@, c));
                    },
                    None => {},
                }
            },
            _ => {},
        }
    }

    /// Rewrites a call (after its children were visited): the descriptor of a
    /// `formatMessage` call gets its ID, and the object of a `defineMessages`
    /// call is rewritten.
    pub fn visit_mut_call_expr(&self, call_expr: &mut JsCallExpr)
        requires
            call_rewrite_hashable(self.var_visitor.entries(), *old(call_expr), *self.state),
        ensures
            call_rewritten(*self.import_visitor, self.var_visitor.entries(), *old(call_expr), *final(call_expr), *self.state),
    {
        let ghost before = *call_expr;
        proof {
            lemma_format_not_define(self.import_visitor.imported_names@, self.import_visitor.alias_map, before);
        }
        if is_format_message_call(self.import_visitor, call_expr) && call_expr.args.len() > 0 {
            self.process_format_message(call_expr);
            assert(call_expr.callee == before.callee);
            assert(crate::ast_call::imported_callee(self.import_visitor.imported_names@, self.import_visitor.alias_map, *call_expr)
                == crate::ast_call::imported_callee(self.import_visitor.imported_names@, self.import_visitor.alias_map, before));
        }
        if is_define_messages_call(self.import_visitor, call_expr) && call_expr.args.len() > 0 {
            self.process_define_messages(call_expr);
        }
    }
}

/// The call `after` is what the transform makes of the call `before`.
pub open spec fn call_rewritten(
    iv: ImportVisitor,
    vars: Seq<(Seq<char>, JsObjectLit)>,
    before: JsCallExpr,
    after: JsCallExpr,
    state: CoreState,
) -> bool {
    if spec_is_format_message_call(iv.imported_names@, iv.alias_map, before) && before.args.len() > 0 {
        format_call_rewritten(before, after, format_id_to_insert(vars, before, state))
    } else if spec_is_define_messages_call(iv.imported_names@, iv.alias_map, before) && before.args.len() > 0 {
        define_call_rewritten(vars, before, after, state)
    } else {
        after == before
    }
}

/// No call is both a `formatMessage` and a `defineMessages` call.
pub proof fn lemma_format_not_define(names: Set<Seq<char>>, aliases: crate::names::AliasMap, call: JsCallExpr)
    ensures
        !(spec_is_format_message_call(names, aliases, call) && spec_is_define_messages_call(names, aliases, call)),
{
    reveal_strlit("formatMessage");
    reveal_strlit("defineMessages");
    assert("formatMessage"@.len() != "defineMessages"@.len());
}

/// The transform of one module, with the state of its file.
pub struct TransformVisitor {
    pub state: CoreState,
}

impl TransformVisitor {
    pub fn new(state: CoreState) -> (r: Self)
        ensures
            r.state == state,
    {
        TransformVisitor { state }
    }
}

} // verus!

verus! {

/// Attributes not named `id` leave the `id` that was read before them.
proof fn lemma_scan_keeps_id(p: Seq<crate::syntax::JsxAttrOrSpread>, s: Seq<crate::syntax::JsxAttrOrSpread>)
    requires
        none_named(s, "id"@),
    ensures
        crate::ast_jsx::scan_attrs(p + s).id == crate::ast_jsx::scan_attrs(p).id,
    decreases s.len(),
{
    if s.len() == 0 {
        assert(p + s =~= p);
    } else {
        assert((p + s).drop_last() =~= p + s.drop_last());
        assert((p + s).last() == s.last());
        assert(!crate::rewrite::attr_named(s[s.len() - 1], "id"@));
        lemma_scan_keeps_id(p, s.drop_last());
    }
}

/// An element that had no `id` attribute keeps the one the transform gives it:
/// analyzing the rewritten element yields that ID and nothing to insert, so a
/// second pass leaves the element as it is.
pub proof fn law_element_rewrite_is_stable(
    iv: ImportVisitor,
    before: JsxElement,
    after: JsxElement,
    idx: int,
    id: Seq<char>,
    state: CoreState,
)
    requires
        none_named(before.opening.attrs@, "id"@),
        0 <= idx <= before.opening.attrs.len(),
        attr_inserted(before.opening.attrs@, after.opening.attrs@, idx, id),
    ensures
        crate::ast_jsx::scan_attrs(after.opening.attrs@).id == Some(id),
        spec_jsx_message(after, state, HashScheme::Base64) matches Some((m, b)) && m.id == id && !b,
        element_id_to_insert(iv, after, state) is None,
{
    let b = before.opening.attrs@;
    let a = after.opening.attrs@;
    let x = a[idx];
    assert(a =~= a.take(idx + 1) + a.skip(idx + 1));
    assert(a.take(idx + 1) =~= b.take(idx).push(x));
    assert(none_named(b.skip(idx), "id"@)) by {
        assert forall|j: int| 0 <= j < b.skip(idx).len() implies !crate::rewrite::attr_named(#[trigger] b.skip(idx)[j], "id"@) by {
            assert(b.skip(idx)[j] == b[idx + j]);
        }
    }
    lemma_scan_keeps_id(b.take(idx).push(x), b.skip(idx));
    reveal_strlit("id");
    assert(crate::ast_jsx::scan_attrs(b.take(idx).push(x)).id == Some(id)) by {
        assert(b.take(idx).push(x).drop_last() =~= b.take(idx));
    }
}

} // verus!

verus! {

/// The extractor and the transform agree on IDs: when the transform inserts an
/// ID into an element, a `formatMessage` descriptor or a `defineMessages`
/// object, the extractor records the same messages with the same IDs.
pub proof fn law_extractor_agrees_with_transform(
    iv: ImportVisitor,
    vars: Seq<(Seq<char>, JsObjectLit)>,
    element: JsxElement,
    call: JsCallExpr,
    state: CoreState,
)
    ensures
        element_id_to_insert(iv, element, state) matches Some(id) ==> crate::cli_visitors::element_message(iv, element, state)
            == Some(spec_jsx_message(element, state, HashScheme::Base64).unwrap().0) && spec_jsx_message(
            element,
            state,
            HashScheme::Base64,
        ).unwrap().0.id == id,
        spec_is_format_message_call(iv.imported_names@, iv.alias_map, call) ==> match format_id_to_insert(vars, call, state) {
            Some(id) => crate::cli_visitors::format_call_message(iv, vars, call, state) matches Some(m) && m.id == id,
            None => true,
        },
        spec_is_define_messages_call(iv.imported_names@, iv.alias_map, call) ==> crate::cli_visitors::define_call_messages(
            iv,
            vars,
            call,
            state,
        ) == define_call_results(vars, call, state).map_values(|x: (Seq<char>, MessageSpec, bool)| x.1),
{
}

} // verus!

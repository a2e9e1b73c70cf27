//! What the extractor records at each element and call of a module.
//!
//! The caller walks the syntax tree (children before parents, as the visitors
//! of the extractor do) and hands each node to these methods.

use vstd::prelude::*;
use crate::ast_call::{
    analyze_define_messages_object_with, analyze_message_object_with, define_props_hashable, define_props_hashable_exec, define_results,
    message_object_hashable_exec,
    is_define_messages_call, is_format_message_call, keyed_messages, message_object_hashable,
    spec_is_define_messages_call, spec_is_format_message_call, spec_message_object,
};
use crate::ast_import::ImportVisitor;
use crate::ast_jsx::{analyze_jsx_element_with, is_react_intl_component, jsx_message_hashable, jsx_message_hashable_exec, spec_is_react_intl_component, spec_jsx_message};
use crate::ast_vars::{object_lookup, VarCollector, VarVisitor};
use crate::extractor::message_list;
use crate::gen_id::HashScheme;
use crate::syntax::{JsCallExpr, JsExpr, JsxElement, JsxElementName, JsObjectLit, JsVarDeclarator};
use crate::types::{CoreState, MessageSpec, TransformedMessageData};

verus! {

/// The message that the extractor records for an element: that of a React
/// Intl component imported from the React Intl module.
pub open spec fn element_message(iv: ImportVisitor, element: JsxElement, state: CoreState) -> Option<MessageSpec> {
    match element.opening.name {
        JsxElementName::Ident(n) => if spec_is_react_intl_component(iv.imported_names@, iv.alias_map, n.sym@) {
            match spec_jsx_message(element, state, HashScheme::Base64) {
                Some((m, _)) => Some(m),
                None => None,
            }
        } else {
            None
        },
        _ => None,
    }
}

/// The ID that the extractor would give an element can be hashed.
pub open spec fn element_hashable(iv: ImportVisitor, element: JsxElement, state: CoreState) -> bool {
    match element.opening.name {
        JsxElementName::Ident(n) => spec_is_react_intl_component(iv.imported_names@, iv.alias_map, n.sym@)
            ==> jsx_message_hashable(element, state, HashScheme::Base64),
        _ => true,
    }
}

/// A list with the message, if there is one.
pub open spec fn optional_message(m: Option<MessageSpec>) -> Seq<MessageSpec> {
    match m {
        Some(m) => seq![m],
        None => Seq::empty(),
    }
}

/// Records the messages of React Intl components.
pub struct JSXVisitor<'a> {
    pub messages: Vec<TransformedMessageData>,
    pub errors: Vec<String>,
    pub state: &'a CoreState,
    pub import_visitor: &'a ImportVisitor<'a>,
}

impl<'a> JSXVisitor<'a> {
    pub fn new(state: &'a CoreState, import_visitor: &'a ImportVisitor<'a>) -> (r: Self)
        ensures
            r.state == state,
            r.import_visitor == import_visitor,
            r.messages@.len() == 0,
            r.errors@.len() == 0,
    {
        JSXVisitor { state, import_visitor, messages: Vec::new(), errors: Vec::new() }
    }

    /// The messages and errors recorded.
    pub fn into_result(self) -> (r: (Vec<TransformedMessageData>, Vec<String>))
        ensures
            r.0 == self.messages,
            r.1 == self.errors,
    {
        (self.messages, self.errors)
    }

    /// Whether the ID that this visitor would give an element can be hashed.
    pub fn element_hashable_exec(&self, element: &JsxElement) -> (r: bool)
        ensures
            r == element_hashable(*self.import_visitor, *element, *self.state),
    {
        match &element.opening.name {
            JsxElementName::Ident(name) => if is_react_intl_component(self.import_visitor, name) {
                jsx_message_hashable_exec(element, self.state, HashScheme::Base64)
            } else {
                true
            },
            _ => true,
        }
    }

    /// Records the message of an element, if it is a React Intl component that
    /// holds one.
    pub fn visit_jsx_element(&mut self, element: &JsxElement)
        requires
            element_hashable(*old(self).import_visitor, *element, *old(self).state),
        ensures
            final(self).state == old(self).state,
            final(self).import_visitor == old(self).import_visitor,
            final(self).errors == old(self).errors,
            message_list(final(self).messages@) == message_list(old(self).messages@) + optional_message(
                element_message(*old(self).import_visitor, *element, *old(self).state),
            ),
    {
        let ghost before = self.messages@;
        if let JsxElementName::Ident(name) = &element.opening.name {
            if is_react_intl_component(self.import_visitor, name) {
                if let Some((transformed, _)) = analyze_jsx_element_with(element, self.state, HashScheme::Base64) {
                    self.messages.push(transformed);
                    assert(message_list(self.messages@) =~= message_list(before) + seq![transformed@]);
                    return;
                }
            }
        }
        assert(message_list(self.messages@) =~= message_list(before) + Seq::<MessageSpec>::empty());
    }
}

/// The descriptor object a call passes first, directly or through a variable
/// initialized with it.
pub open spec fn passed_object(vars: Seq<(Seq<char>, JsObjectLit)>, call: JsCallExpr) -> Option<JsObjectLit> {
    if call.args.len() > 0 {
        match *call.args[0].expr {
            JsExpr::Object(o) => Some(o),
            JsExpr::Ident(i) => object_lookup(vars, i.sym@),
            _ => None,
        }
    } else {
        None
    }
}

/// The message that the extractor records for a `formatMessage` call.
pub open spec fn format_call_message(
    iv: ImportVisitor,
    vars: Seq<(Seq<char>, JsObjectLit)>,
    call: JsCallExpr,
    state: CoreState,
) -> Option<MessageSpec> {
    if spec_is_format_message_call(iv.imported_names@, iv.alias_map, call) {
        match passed_object(vars, call) {
            Some(o) => match spec_message_object(o, state, None, HashScheme::Base64) {
                Some((m, _)) => Some(m),
                None => None,
            },
            None => None,
        }
    } else {
        None
    }
}

/// The messages that the extractor records for a `defineMessages` call.
pub open spec fn define_call_messages(
    iv: ImportVisitor,
    vars: Seq<(Seq<char>, JsObjectLit)>,
    call: JsCallExpr,
    state: CoreState,
) -> Seq<MessageSpec> {
    if spec_is_define_messages_call(iv.imported_names@, iv.alias_map, call) {
        match passed_object(vars, call) {
            Some(o) => define_results(o.props@, state, HashScheme::Base64).map_values(
                |x: (Seq<char>, MessageSpec, bool)| x.1,
            ),
            None => Seq::empty(),
        }
    } else {
        Seq::empty()
    }
}

/// The IDs that the extractor would give the messages of a call can be hashed.
pub open spec fn call_hashable(
    iv: ImportVisitor,
    vars: Seq<(Seq<char>, JsObjectLit)>,
    call: JsCallExpr,
    state: CoreState,
) -> bool {
    &&& (spec_is_format_message_call(iv.imported_names@, iv.alias_map, call) ==> match passed_object(vars, call) {
        Some(o) => message_object_hashable(o, state, None, HashScheme::Base64),
        None => true,
    })
    &&& (spec_is_define_messages_call(iv.imported_names@, iv.alias_map, call) ==> match passed_object(vars, call) {
        Some(o) => define_props_hashable(o.props@, state, HashScheme::Base64),
        None => true,
    })
}

/// Records the messages of `formatMessage` and `defineMessages` calls.
pub struct CallExpressionVisitor<'a> {
    pub state: &'a CoreState,
    pub messages: Vec<TransformedMessageData>,
    pub import_visitor: &'a ImportVisitor<'a>,
    pub var_visitor: VarVisitor<'a>,
}

impl<'a> CallExpressionVisitor<'a> {
    pub fn new(state: &'a CoreState, import_visitor: &'a ImportVisitor<'a>) -> (r: Self)
        ensures
            r.state == state,
            r.import_visitor == import_visitor,
            r.messages@.len() == 0,
            r.var_visitor.entries().len() == 0,
    {
        CallExpressionVisitor { state, import_visitor, var_visitor: VarVisitor::new(state), messages: Vec::new() }
    }

    /// The messages recorded.
    pub fn into_messages(self) -> (r: Vec<TransformedMessageData>)
        ensures
            r == self.messages,
    {
        self.messages
    }

    /// The object a call passes first, directly or through a variable.
    fn passed_object_exec<'b>(&'b self, call_expr: &'b JsCallExpr) -> (r: Option<&'b JsObjectLit>)
        ensures
            r matches Some(o) ==> passed_object(self.var_visitor.entries(), *call_expr) == Some(*o),
            r is None ==> passed_object(self.var_visitor.entries(), *call_expr) is None,
    {
        if call_expr.args.len() == 0 {
            return None;
        }
        match &*call_expr.args[0].expr {
            JsExpr::Object(o) => Some(o),
            JsExpr::Ident(i) => self.var_visitor.get_object(i.sym.as_str()),
            _ => None,
        }
    }

    /// Whether the IDs that this visitor would give the messages of a call can be
    /// hashed.
    pub fn call_hashable_exec(&self, call_expr: &JsCallExpr) -> (r: bool)
        ensures
            r == call_hashable(*self.import_visitor, self.var_visitor.entries(), *call_expr, *self.state),
    {
        let format_ok = if is_format_message_call(self.import_visitor, call_expr) {
            match self.passed_object_exec(call_expr) {
                Some(o) => message_object_hashable_exec(o, self.state, None, HashScheme::Base64),
                None => true,
            }
        } else {
            true
        };
        let define_ok = if is_define_messages_call(self.import_visitor, call_expr) {
            match self.passed_object_exec(call_expr) {
                Some(o) => define_props_hashable_exec(&o.props, self.state, HashScheme::Base64),
                None => true,
            }
        } else {
            true
        };
        format_ok && define_ok
    }

    /// Records the message of a `formatMessage` call.
    pub fn process_format_message(&mut self, call_expr: &JsCallExpr)
        requires
            call_hashable(*old(self).import_visitor, old(self).var_visitor.entries(), *call_expr, *old(self).state),
        ensures
            final(self).state == old(self).state,
            final(self).import_visitor == old(self).import_visitor,
            final(self).var_visitor == old(self).var_visitor,
            message_list(final(self).messages@) == message_list(old(self).messages@) + optional_message(
                format_call_message(
                    *old(self).import_visitor,
                    old(self).var_visitor.entries(),
                    *call_expr,
                    *old(self).state,
                ),
            ),
    {
        let ghost before = self.messages@;
        if is_format_message_call(self.import_visitor, call_expr) {
            if let Some(obj) = self.passed_object_exec(call_expr) {
                if let Some((transformed, _)) = analyze_message_object_with(obj, self.state, None, HashScheme::Base64) {
                    self.messages.push(transformed);
                    assert(message_list(self.messages@) =~= message_list(before) + seq![transformed@]);
                    return;
                }
            }
        }
        assert(message_list(self.messages@) =~= message_list(before) + Seq::<MessageSpec>::empty());
    }

    /// Records the messages of a `defineMessages` call.
    pub fn process_define_message(&mut self, call_expr: &JsCallExpr)
        requires
            call_hashable(*old(self).import_visitor, old(self).var_visitor.entries(), *call_expr, *old(self).state),
        ensures
            final(self).state == old(self).state,
            final(self).import_visitor == old(self).import_visitor,
            final(self).var_visitor == old(self).var_visitor,
            message_list(final(self).messages@) == message_list(old(self).messages@) + define_call_messages(
                *old(self).import_visitor,
                old(self).var_visitor.entries(),
                *call_expr,
                *old(self).state,
            ),
    {
        let ghost before = self.messages@;
        if is_define_messages_call(self.import_visitor, call_expr) {
            if let Some(obj) = self.passed_object_exec(call_expr) {
                let found = analyze_define_messages_object_with(obj, self.state, HashScheme::Base64);
                let ghost keyed = keyed_messages(found@);
                let mut i: usize = 0;
                while i < found.len()
                    invariant
                        i <= found.len(),
                        keyed == keyed_messages(found@),
                        self.state == old(self).state,
                        self.import_visitor == old(self).import_visitor,
                        self.var_visitor == old(self).var_visitor,
                        message_list(self.messages@) == message_list(before) + keyed.take(i as int).map_values(
                            |x: (Seq<char>, MessageSpec, bool)| x.1,
                        ),
                    decreases found.len() - i,
                {
                    let ghost mid = self.messages@;
                    let t = crate::types::copy_message(&found[i].1);
                    self.messages.push(t);
                    assert(keyed.take(i + 1).map_values(|x: (Seq<char>, MessageSpec, bool)| x.1) =~= keyed.take(
                        i as int,
                    ).map_values(|x: (Seq<char>, MessageSpec, bool)| x.1).push(found@[i as int].1@));
                    assert(message_list(self.messages@) =~= message_list(mid).push(t@));
                    i = i + 1;
                }
                assert(keyed.take(i as int) =~= keyed);
                return;
            }
        }
        assert(message_list(self.messages@) =~= message_list(before) + Seq::<MessageSpec>::empty());
    }

    /// Records a variable initialized with an object literal.
    pub fn visit_var_declarator(&mut self, declarator: JsVarDeclarator)
        ensures
            final(self).state == old(self).state,
            final(self).import_visitor == old(self).import_visitor,
            final(self).messages == old(self).messages,
            final(self).var_visitor.entries() == match crate::ast_vars::declared_object(declarator) {
                Some(entry) => old(self).var_visitor.entries().push(entry),
                None => old(self).var_visitor.entries(),
            },
    {
        self.var_visitor.track_declarator(declarator);
    }

    /// Records the messages of a call (after those of the calls inside it).
    pub fn visit_call_expr(&mut self, call_expr: &JsCallExpr)
        requires
            call_hashable(*old(self).import_visitor, old(self).var_visitor.entries(), *call_expr, *old(self).state),
        ensures
            final(self).state == old(self).state,
            final(self).import_visitor == old(self).import_visitor,
            final(self).var_visitor == old(self).var_visitor,
            message_list(final(self).messages@) == message_list(old(self).messages@) + optional_message(
                format_call_message(
                    *old(self).import_visitor,
                    old(self).var_visitor.entries(),
                    *call_expr,
                    *old(self).state,
                ),
            ) + define_call_messages(
                *old(self).import_visitor,
                old(self).var_visitor.entries(),
                *call_expr,
                *old(self).state,
            ),
    {
        self.process_format_message(call_expr);
        self.process_define_message(call_expr);
    }
}

} // verus!

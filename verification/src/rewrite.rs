//! The pieces that the transforms add to a module: `id` attributes of JSX
//! elements and `id` (and `defaultMessage`) properties of descriptor objects.

use vstd::prelude::*;
use crate::syntax::{
    JsCallExpr, JsExpr, JsExprOrSpread, JsIdent, JsxAttr, JsxAttrName, JsxAttrOrSpread, JsxAttrValue, JsxElement, JsxOpeningElement,
    JsKeyValueProp, JsLit, JsObjectLit, JsProp, JsPropName, JsPropOrSpread, JsStr, dummy_sp,
};
use crate::ast_call::keyed_messages;
use crate::ast_utils::{extract_prop_name, prop_name};
use crate::text::{owned, str_eq};
use crate::types::{MessageSpec, TransformedMessageData};

verus! {

/// `a` is an attribute named `name`.
pub open spec fn attr_named(a: JsxAttrOrSpread, name: Seq<char>) -> bool {
    match a {
        JsxAttrOrSpread::JSXAttr(x) => match x.name {
            JsxAttrName::Ident(i) => i.sym@ == name,
            _ => false,
        },
        _ => false,
    }
}

/// `a` is a new `id` attribute with the string value `id`.
pub open spec fn is_id_attr(a: JsxAttrOrSpread, id: Seq<char>) -> bool {
    match a {
        JsxAttrOrSpread::JSXAttr(x) => {
            &&& x.span == dummy_sp()
            &&& x.name matches JsxAttrName::Ident(n)
            &&& n.span == dummy_sp()
            &&& n.sym@ == "id"@
            &&& x.value matches Some(JsxAttrValue::Str(s))
            &&& s.span == dummy_sp()
            &&& s.value@ == id
        },
        _ => false,
    }
}

/// `i` is the position of the first attribute named `name`.
pub open spec fn first_named(attrs: Seq<JsxAttrOrSpread>, name: Seq<char>, i: int) -> bool {
    &&& 0 <= i < attrs.len()
    &&& attr_named(attrs[i], name)
    &&& forall|j: int| 0 <= j < i ==> !attr_named(#[trigger] attrs[j], name)
}

/// No attribute is named `name`.
pub open spec fn none_named(attrs: Seq<JsxAttrOrSpread>, name: Seq<char>) -> bool {
    forall|j: int| 0 <= j < attrs.len() ==> !attr_named(#[trigger] attrs[j], name)
}

/// The position of the first attribute named `name`.
pub fn find_attribute_index(opening: &JsxOpeningElement, name: &str) -> (r: Option<usize>)
    ensures
        r matches Some(i) ==> first_named(opening.attrs@, name@, i as int),
        r is None ==> none_named(opening.attrs@, name@),
{
    let mut i: usize = 0;
    while i < opening.attrs.len()
        invariant
            i <= opening.attrs.len(),
            forall|j: int| 0 <= j < i ==> !attr_named(#[trigger] opening.attrs@[j], name@),
        decreases opening.attrs.len() - i,
    {
        if let JsxAttrOrSpread::JSXAttr(jsx_attr) = &opening.attrs[i] {
            if let JsxAttrName::Ident(ident) = &jsx_attr.name {
                if str_eq(ident.sym.as_str(), name) {
                    return Some(i);
                }
            }
        }
        i = i + 1;
    }
    None
}

/// The attributes `after` are `before` with an `id` attribute of value `id`
/// inserted at `idx`.
pub open spec fn attr_inserted(before: Seq<JsxAttrOrSpread>, after: Seq<JsxAttrOrSpread>, idx: int, id: Seq<char>) -> bool {
    &&& after.len() == before.len() + 1
    &&& after.take(idx) == before.take(idx)
    &&& after.skip(idx + 1) == before.skip(idx)
    &&& is_id_attr(after[idx], id)
}

/// A new `id` attribute.
pub fn id_attribute(id: &str) -> (r: JsxAttrOrSpread)
    ensures
        is_id_attr(r, id@),
{
    JsxAttrOrSpread::JSXAttr(
        JsxAttr {
            span: dummy_sp(),
            name: JsxAttrName::Ident(JsIdent { span: dummy_sp(), sym: owned("id") }),
            value: Some(JsxAttrValue::Str(JsStr { span: dummy_sp(), value: owned(id) })),
        },
    )
}

/// Inserts an `id` attribute with value `id` at position `idx`.
pub fn insert_id_attribute(element: &mut JsxElement, default_message_idx: usize, id: &str)
    requires
        default_message_idx <= old(element).opening.attrs.len(),
    ensures
        final(element).span == old(element).span,
        final(element).opening.name == old(element).opening.name,
        attr_inserted(old(element).opening.attrs@, final(element).opening.attrs@, default_message_idx as int, id@),
{
    let id_attr = id_attribute(id);
    element.opening.attrs.insert(default_message_idx, id_attr);
    assert(element.opening.attrs@.take(default_message_idx as int) =~= old(element).opening.attrs@.take(
        default_message_idx as int,
    ));
    assert(element.opening.attrs@.skip(default_message_idx + 1) =~= old(element).opening.attrs@.skip(
        default_message_idx as int,
    ));
}

/// `p` is a property named `key` (a string key made by the rewrite) whose value
/// satisfies `value`.
pub open spec fn is_new_prop(p: JsProp, key: Seq<char>, value: JsExpr) -> bool {
    match p {
        JsProp::KeyValue(kv) => {
            &&& kv.key matches JsPropName::Str(k)
            &&& k.span == dummy_sp()
            &&& k.value@ == key
            &&& *kv.value == value
        },
        _ => false,
    }
}

/// `v` is a string literal made by the rewrite, holding `text`.
pub open spec fn is_new_string(v: JsExpr, text: Seq<char>) -> bool {
    match v {
        JsExpr::Lit(JsLit::Str(s)) => s.span == dummy_sp() && s.value@ == text,
        _ => false,
    }
}

/// `p` is a property named `key` whose value is a new string holding `text`.
pub open spec fn is_string_prop(p: JsProp, key: Seq<char>, text: Seq<char>) -> bool {
    match p {
        JsProp::KeyValue(kv) => {
            &&& kv.key matches JsPropName::Str(k)
            &&& k.span == dummy_sp()
            &&& k.value@ == key
            &&& is_new_string(*kv.value, text)
        },
        _ => false,
    }
}

/// `e` is a new `id` property with the value `id`.
pub open spec fn is_id_entry(e: JsPropOrSpread, id: Seq<char>) -> bool {
    match e {
        JsPropOrSpread::Prop(p) => is_string_prop(*p, "id"@, id),
        _ => false,
    }
}

/// A property with a string key.
pub fn object_property(key: &str, value: JsExpr) -> (r: JsProp)
    ensures
        is_new_prop(r, key@, value),
{
    JsProp::KeyValue(JsKeyValueProp { key: JsPropName::Str(JsStr { span: dummy_sp(), value: owned(key) }), value: Box::new(value) })
}

/// A new string literal.
pub fn new_string(text: &str) -> (r: JsExpr)
    ensures
        is_new_string(r, text@),
{
    JsExpr::Lit(JsLit::Str(JsStr { span: dummy_sp(), value: owned(text) }))
}

/// A new `id` property.
pub fn id_entry(id: &str) -> (r: JsPropOrSpread)
    ensures
        is_id_entry(r, id@),
{
    JsPropOrSpread::Prop(Box::new(object_property("id", new_string(id))))
}

/// The entries `after` are `before` with a new `id` property at the end.
pub open spec fn id_appended(before: Seq<JsPropOrSpread>, after: Seq<JsPropOrSpread>, id: Seq<char>) -> bool {
    &&& after.len() == before.len() + 1
    &&& after.drop_last() == before
    &&& is_id_entry(after.last(), id)
}

/// Appends a new `id` property to an object.
pub fn push_id(obj: &mut JsObjectLit, id: &str)
    ensures
        final(obj).span == old(obj).span,
        id_appended(old(obj).props@, final(obj).props@, id@),
{
    obj.props.push(id_entry(id));
    assert(obj.props@.drop_last() =~= old(obj).props@);
}

/// The last analysis result for `key`: its message and whether its ID is to
/// be inserted.
pub open spec fn lookup_message(msgs: Seq<(Seq<char>, MessageSpec, bool)>, key: Seq<char>) -> Option<(MessageSpec, bool)>
    decreases msgs.len(),
{
    if msgs.len() == 0 {
        None
    } else if msgs.last().0 == key {
        Some((msgs.last().1, msgs.last().2))
    } else {
        lookup_message(msgs.drop_last(), key)
    }
}

/// The value `a` of a `defineMessages` property is what the rewrite makes of
/// the value `b`, given the message's ID: an object gets an `id` property (when
/// its ID is to be inserted); a string or template literal becomes an object
/// with the `id` and the literal as `defaultMessage`; anything else stays.
pub open spec fn value_rewritten(b: JsExpr, a: JsExpr, id: Seq<char>, insert: bool) -> bool {
    match b {
        JsExpr::Object(o) => if insert {
            match a {
                JsExpr::Object(ao) => ao.span == o.span && id_appended(o.props@, ao.props@, id),
                _ => false,
            }
        } else {
            a == b
        },
        JsExpr::Lit(JsLit::Str(s)) => match a {
            JsExpr::Object(ao) => {
                &&& ao.span == dummy_sp()
                &&& ao.props@.len() == 2
                &&& is_id_entry(ao.props@[0], id)
                &&& ao.props@[1] matches JsPropOrSpread::Prop(p)
                &&& is_string_prop(*p, "defaultMessage"@, s.value@)
            },
            _ => false,
        },
        JsExpr::Tpl(t) => match a {
            JsExpr::Object(ao) => {
                &&& ao.span == dummy_sp()
                &&& ao.props@.len() == 2
                &&& is_id_entry(ao.props@[0], id)
                &&& ao.props@[1] matches JsPropOrSpread::Prop(p)
                &&& is_new_prop(*p, "defaultMessage"@, JsExpr::Tpl(t))
            },
            _ => false,
        },
        _ => a == b,
    }
}

/// The entry `a` is what the rewrite makes of the entry `b` of a
/// `defineMessages` object, given the analysis results `msgs`: a property
/// whose key has a result gets its value rewritten; anything else stays.
pub open spec fn entry_rewritten(b: JsPropOrSpread, a: JsPropOrSpread, msgs: Seq<(Seq<char>, MessageSpec, bool)>) -> bool {
    match b {
        JsPropOrSpread::Prop(bp) => match *bp {
            JsProp::KeyValue(kv) => match prop_name(kv.key) {
                Some(k) => match lookup_message(msgs, k) {
                    Some((m, insert)) => match a {
                        JsPropOrSpread::Prop(ap) => match *ap {
                            JsProp::KeyValue(akv) => akv.key == kv.key && value_rewritten(*kv.value, *akv.value, m.id, insert),
                            _ => false,
                        },
                        _ => false,
                    },
                    None => a == b,
                },
                None => a == b,
            },
            _ => a == b,
        },
        _ => a == b,
    }
}

/// The entries `after` are the entries `before`, each rewritten.
pub open spec fn entries_rewritten(before: Seq<JsPropOrSpread>, after: Seq<JsPropOrSpread>, msgs: Seq<(Seq<char>, MessageSpec, bool)>) -> bool {
    before.len() == after.len() && forall|i: int| 0 <= i < before.len() ==> entry_rewritten(#[trigger] before[i], after[i], msgs)
}

/// The ID and insertion flag of the last result for `key`.
fn lookup_message_exec(msgs: &Vec<(String, TransformedMessageData, bool)>, key: &str) -> (r: Option<(String, bool)>)
    ensures
        r matches Some((id, insert)) ==> lookup_message(keyed_messages(msgs@), key@) matches Some((m, b)) && m.id == id@ && b == insert,
        r is None ==> lookup_message(keyed_messages(msgs@), key@) is None,
{
    let mut n: usize = msgs.len();
    assert(keyed_messages(msgs@).take(n as int) =~= keyed_messages(msgs@));
    while n > 0
        invariant
            n <= msgs.len(),
            lookup_message(keyed_messages(msgs@), key@) == lookup_message(keyed_messages(msgs@).take(n as int), key@),
        decreases n,
    {
        assert(keyed_messages(msgs@).take(n as int).drop_last() =~= keyed_messages(msgs@).take(n - 1));
        if str_eq(msgs[n - 1].0.as_str(), key) {
            return Some((owned(msgs[n - 1].1.id.as_str()), msgs[n - 1].2));
        }
        n = n - 1;
    }
    None
}

/// What the rewrite makes of the value of a property, given the ID.
fn rewrite_value(value: JsExpr, id: &str, insert: bool) -> (r: JsExpr)
    ensures
        value_rewritten(value, r, id@, insert),
{
    match value {
        JsExpr::Object(o) => {
            if insert {
                let mut o = o;
                push_id(&mut o, id);
                JsExpr::Object(o)
            } else {
                JsExpr::Object(o)
            }
        },
        JsExpr::Lit(JsLit::Str(s)) => {
            let dm = JsProp::KeyValue(
                JsKeyValueProp {
                    key: JsPropName::Str(JsStr { span: dummy_sp(), value: owned("defaultMessage") }),
                    value: Box::new(JsExpr::Lit(JsLit::Str(JsStr { span: dummy_sp(), value: s.value }))),
                },
            );
            let props = vec![id_entry(id), JsPropOrSpread::Prop(Box::new(dm))];
            JsExpr::Object(JsObjectLit { span: dummy_sp(), props })
        },
        JsExpr::Tpl(t) => {
            let dm = object_property("defaultMessage", JsExpr::Tpl(t));
            let props = vec![id_entry(id), JsPropOrSpread::Prop(Box::new(dm))];
            JsExpr::Object(JsObjectLit { span: dummy_sp(), props })
        },
        other => other,
    }
}

/// What the rewrite makes of one entry of a `defineMessages` object.
pub fn rewrite_define_entry(entry: JsPropOrSpread, msgs: &Vec<(String, TransformedMessageData, bool)>) -> (r: JsPropOrSpread)
    ensures
        entry_rewritten(entry, r, keyed_messages(msgs@)),
{
    match entry {
        JsPropOrSpread::Prop(bp) => {
            let prop = *bp;
            match prop {
                JsProp::KeyValue(kv) => {
                    let JsKeyValueProp { key, value } = kv;
                    let found = match extract_prop_name(&key) {
                        Some(name) => lookup_message_exec(msgs, name.as_str()),
                        None => None,
                    };
                    match found {
                        Some((id, insert)) => {
                            let v = rewrite_value(*value, id.as_str(), insert);
                            JsPropOrSpread::Prop(Box::new(JsProp::KeyValue(JsKeyValueProp { key, value: Box::new(v) })))
                        },
                        None => JsPropOrSpread::Prop(Box::new(JsProp::KeyValue(JsKeyValueProp { key, value }))),
                    }
                },
                other => JsPropOrSpread::Prop(Box::new(other)),
            }
        },
        other => other,
    }
}

/// Rewrites every entry of a `defineMessages` object by the analysis results.
pub fn rewrite_define_object(obj: &mut JsObjectLit, msgs: &Vec<(String, TransformedMessageData, bool)>)
    ensures
        final(obj).span == old(obj).span,
        entries_rewritten(old(obj).props@, final(obj).props@, keyed_messages(msgs@)),
{
    let mut rest: Vec<JsPropOrSpread> = Vec::new();
    std::mem::swap(&mut rest, &mut obj.props);
    let ghost before = rest@;
    let mut done: Vec<JsPropOrSpread> = Vec::new();
    let mut i: usize = 0;
    let n = rest.len();
    while i < n
        invariant
            n == before.len(),
            i <= n,
            rest@ == before.skip(i as int),
            done.len() == i,
            forall|j: int| 0 <= j < i ==> entry_rewritten(#[trigger] before[j], done@[j], keyed_messages(msgs@)),
        decreases n - i,
    {
        let e = rest.remove(0);
        assert(e == before[i as int]);
        assert(rest@ =~= before.skip(i + 1));
        let r = rewrite_define_entry(e, msgs);
        done.push(r);
        i = i + 1;
    }
    obj.props = done;
}

/// The call `after` is `before` with the expression of its first argument
/// replaced by `e`.
pub open spec fn first_arg_replaced(before: JsCallExpr, after: JsCallExpr, e: JsExpr) -> bool {
    &&& after.span == before.span
    &&& after.callee == before.callee
    &&& before.args.len() > 0
    &&& after.args.len() == before.args.len()
    &&& after.args@.skip(1) == before.args@.skip(1)
    &&& after.args@[0].spread == before.args@[0].spread
    &&& *after.args@[0].expr == e
}

/// Takes the expression of the first argument out of a call, leaving a
/// placeholder in its place.
pub fn take_first_arg(call: &mut JsCallExpr) -> (r: JsExpr)
    requires
        old(call).args.len() > 0,
    ensures
        r == *old(call).args@[0].expr,
        first_arg_replaced(*old(call), *final(call), JsExpr::Other(0)),
{
    let mut args: Vec<JsExprOrSpread> = Vec::new();
    std::mem::swap(&mut args, &mut call.args);
    let first = args.remove(0);
    let JsExprOrSpread { spread, expr } = first;
    args.insert(0, JsExprOrSpread { spread, expr: Box::new(JsExpr::Other(0)) });
    std::mem::swap(&mut args, &mut call.args);
    assert(call.args@.skip(1) =~= old(call).args@.skip(1));
    *expr
}

/// Puts `e` as the expression of the first argument of a call.
pub fn put_first_arg(call: &mut JsCallExpr, e: JsExpr)
    requires
        old(call).args.len() > 0,
    ensures
        first_arg_replaced(*old(call), *final(call), e),
{
    let mut args: Vec<JsExprOrSpread> = Vec::new();
    std::mem::swap(&mut args, &mut call.args);
    let first = args.remove(0);
    let spread = first.spread;
    args.insert(0, JsExprOrSpread { spread, expr: Box::new(e) });
    std::mem::swap(&mut args, &mut call.args);
    assert(call.args@.skip(1) =~= old(call).args@.skip(1));
}

} // verus!

verus! {

/// A descriptor object that got its generated ID keeps it: analyzing the
/// rewritten object gives the same message, with the ID now present, so a
/// second pass inserts nothing.
pub proof fn law_descriptor_rewrite_is_stable(
    o: JsObjectLit,
    o2: JsObjectLit,
    state: crate::types::CoreState,
    key: Option<Seq<char>>,
    scheme: crate::gen_id::HashScheme,
)
    requires
        crate::ast_call::spec_message_object(o, state, key, scheme) matches Some((m, b)) && b,
        id_appended(o.props@, o2.props@, crate::ast_call::spec_message_object(o, state, key, scheme).unwrap().0.id),
    ensures
        crate::ast_call::spec_message_object(o2, state, key, scheme) == Some(
            (crate::ast_call::spec_message_object(o, state, key, scheme).unwrap().0, false),
        ),
{
    let m = crate::ast_call::spec_message_object(o, state, key, scheme).unwrap().0;
    let f = crate::ast_call::scan_fields(o.props@).unwrap();
    assert(o2.props@.drop_last() == o.props@);
    assert(crate::ast_call::scan_fields(o2.props@) == crate::ast_call::field_step(f, o2.props@.last()));
    reveal_strlit("id");
    reveal_strlit("defaultMessage");
    reveal_strlit("description");
    assert("id"@.len() == 2);
    assert(crate::ast_call::scan_fields(o2.props@) == Some(
        crate::ast_call::Fields { id: Some(m.id), ..f },
    ));
}

} // verus!

verus! {

/// A `defineMessages` entry that the rewrite gave its generated ID (by the
/// result for its own key) keeps it: analyzing the rewritten entry gives the
/// same key and message, with nothing left to insert.
pub proof fn law_define_entry_rewrite_is_stable(
    b: JsPropOrSpread,
    a: JsPropOrSpread,
    msgs: Seq<(Seq<char>, MessageSpec, bool)>,
    state: crate::types::CoreState,
    scheme: crate::gen_id::HashScheme,
)
    requires
        b matches JsPropOrSpread::Prop(bp) && crate::ast_call::spec_define_property(*bp, state, scheme) is Some,
        lookup_message(msgs, crate::ast_call::spec_define_property(*b->Prop_0, state, scheme).unwrap().0) == Some(
            (
                crate::ast_call::spec_define_property(*b->Prop_0, state, scheme).unwrap().1,
                crate::ast_call::spec_define_property(*b->Prop_0, state, scheme).unwrap().2,
            ),
        ),
        entry_rewritten(b, a, msgs),
    ensures
        a matches JsPropOrSpread::Prop(ap) && crate::ast_call::spec_define_property(*ap, state, scheme) == Some(
            (
                crate::ast_call::spec_define_property(*b->Prop_0, state, scheme).unwrap().0,
                crate::ast_call::spec_define_property(*b->Prop_0, state, scheme).unwrap().1,
                false,
            ),
        ),
{
    let bp = *b->Prop_0;
    let r = crate::ast_call::spec_define_property(bp, state, scheme).unwrap();
    let (k, m, ins) = r;
    reveal_strlit("id");
    reveal_strlit("defaultMessage");
    reveal_strlit("description");
    assert("id"@.len() == 2);
    assert("defaultMessage"@.len() == 14);
    match bp {
        JsProp::KeyValue(kv) => {
            match *kv.value {
                JsExpr::Object(o) => {
                    if ins {
                        let ap = *a->Prop_0;
                        let akv = ap->KeyValue_0;
                        let ao = (*akv.value)->Object_0;
                        law_descriptor_rewrite_is_stable(o, ao, state, Some(k), scheme);
                    }
                },
                JsExpr::Lit(JsLit::Str(s)) => {
                    let ap = *a->Prop_0;
                    let akv = ap->KeyValue_0;
                    let ao = (*akv.value)->Object_0;
                    let p0 = ao.props@[0];
                    let p1 = ao.props@[1];
                    assert(ao.props@.take(1).drop_last() =~= Seq::<JsPropOrSpread>::empty());
                    assert(ao.props@.take(1).last() == ao.props@[0]);
                    assert(ao.props@.take(2).last() == ao.props@[1]);
                    assert(crate::ast_call::scan_fields(Seq::<JsPropOrSpread>::empty()) == Some(crate::ast_call::no_fields()));
                    assert(ao.props@.take(2).drop_last() =~= ao.props@.take(1));
                    assert(ao.props@.take(2) =~= ao.props@);
                    assert(crate::ast_call::scan_fields(ao.props@.take(1)) == Some(
                        crate::ast_call::Fields { id: Some(m.id), default_message: None, description: None },
                    ));
                    assert(crate::ast_call::scan_fields(ao.props@) == Some(
                        crate::ast_call::Fields { id: Some(m.id), default_message: Some(s.value@), description: None },
                    ));
                },
                JsExpr::Tpl(t) => {
                    let ap = *a->Prop_0;
                    let akv = ap->KeyValue_0;
                    let ao = (*akv.value)->Object_0;
                    assert(ao.props@.take(1).drop_last() =~= Seq::<JsPropOrSpread>::empty());
                    assert(ao.props@.take(1).last() == ao.props@[0]);
                    assert(ao.props@.take(2).last() == ao.props@[1]);
                    assert(crate::ast_call::scan_fields(Seq::<JsPropOrSpread>::empty()) == Some(crate::ast_call::no_fields()));
                    assert(ao.props@.take(2).drop_last() =~= ao.props@.take(1));
                    assert(ao.props@.take(2) =~= ao.props@);
                    assert(crate::ast_call::scan_fields(ao.props@.take(1)) == Some(
                        crate::ast_call::Fields { id: Some(m.id), default_message: None, description: None },
                    ));
                    assert(crate::ast_call::scan_fields(ao.props@) == Some(
                        crate::ast_call::Fields {
                            id: Some(m.id),
                            default_message: crate::ast_utils::expr_string(JsExpr::Tpl(t)),
                            description: None,
                        },
                    ));
                },
                _ => {},
            }
        },
        _ => {},
    }
}

/// The key of an entry, when it is a key-value property.
pub open spec fn key_of_entry(p: JsPropOrSpread) -> Option<JsPropName> {
    match p {
        JsPropOrSpread::Prop(b) => match *b {
            JsProp::KeyValue(kv) => Some(kv.key),
            _ => None,
        },
        _ => None,
    }
}

/// Law: rewriting the entries of a `defineMessages` object by its analysis
/// keeps them in order with their keys, and leaves alone every entry that is
/// not a key-value property with a readable key that has a message.
pub proof fn law_entries_rewrite_keeps_keys(
    before: Seq<JsPropOrSpread>,
    after: Seq<JsPropOrSpread>,
    msgs: Seq<(Seq<char>, MessageSpec, bool)>,
)
    requires
        entries_rewritten(before, after, msgs),
    ensures
        before.len() == after.len(),
        forall|i: int| 0 <= i < before.len() ==> key_of_entry(#[trigger] after[i]) == key_of_entry(before[i]),
        forall|i: int|
            0 <= i < before.len() && (match #[trigger] key_of_entry(before[i]) {
                Some(k) => prop_name(k) matches Some(n) ==> lookup_message(msgs, n) is None,
                None => true,
            }) ==> after[i] == before[i],
{
    assert forall|i: int| 0 <= i < before.len() implies key_of_entry(#[trigger] after[i]) == key_of_entry(before[i]) by {
        assert(entry_rewritten(before[i], after[i], msgs));
    }
    assert forall|i: int|
        0 <= i < before.len() && (match #[trigger] key_of_entry(before[i]) {
            Some(k) => prop_name(k) matches Some(n) ==> lookup_message(msgs, n) is None,
            None => true,
        }) implies after[i] == before[i] by {
        assert(entry_rewritten(before[i], after[i], msgs));
    }
}

} // verus!


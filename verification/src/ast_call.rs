//! Messages declared through `defineMessages` and `formatMessage` calls.

use vstd::prelude::*;
use crate::ast_import::ImportCollector;
use crate::ast_utils::{expr_string, extract_expr_string, extract_prop_name, prop_name};
use crate::gen_id::{
    generate_message_id_with, id_hashable, id_of, message_id_hashable_exec, GenIdFromDescriptorPayload, GenIdFromKeyPayload,
    GenIdPayload, HashScheme, IdSource,
};
use crate::names::AliasMap;
use crate::syntax::{JsCallExpr, JsCallee, JsExpr, JsKeyValueProp, JsLit, JsMemberProp, JsObjectLit, JsProp, JsPropName, JsPropOrSpread, JsStr};
use crate::text::{owned, str_eq};
use crate::types::{CoreState, MessageSpec, TransformedMessageData};

verus! {

/// The name a call's callee goes by, when it is a plain identifier.
pub open spec fn callee_ident(call: JsCallExpr) -> Option<Seq<char>> {
    match call.callee {
        JsCallee::Expr(e) => match *e {
            JsExpr::Ident(i) => Some(i.sym@),
            _ => None,
        },
        _ => None,
    }
}

/// The imported name that the callee stands for: the callee's own name, or
/// the name it is an alias of. `None` when the callee is not an imported name.
pub open spec fn imported_callee(names: Set<Seq<char>>, aliases: AliasMap, call: JsCallExpr) -> Option<Seq<char>> {
    match callee_ident(call) {
        Some(n) => if names.contains(n) {
            match aliases.spec_get(n) {
                Some(original) => Some(original),
                None => Some(n),
            }
        } else {
            None
        },
        None => None,
    }
}

/// The call is `x.formatMessage(..)` for some `x`.
pub open spec fn is_member_format_message(call: JsCallExpr) -> bool {
    match call.callee {
        JsCallee::Expr(e) => match *e {
            JsExpr::Member(m) => match m.prop {
                JsMemberProp::Ident(p) => p.sym@ == "formatMessage"@,
                _ => false,
            },
            _ => false,
        },
        _ => false,
    }
}

/// The call is a `defineMessages` call.
pub open spec fn spec_is_define_messages_call(names: Set<Seq<char>>, aliases: AliasMap, call: JsCallExpr) -> bool {
    imported_callee(names, aliases, call) == Some("defineMessages"@)
}

/// The call is a `formatMessage` call.
pub open spec fn spec_is_format_message_call(names: Set<Seq<char>>, aliases: AliasMap, call: JsCallExpr) -> bool {
    is_member_format_message(call) || imported_callee(names, aliases, call) == Some("formatMessage"@)
}

/// The imported name the callee stands for, if any.
fn imported_callee_exec<T: ImportCollector>(collector: &T, call_expr: &JsCallExpr) -> (r: Option<String>)
    ensures
        r matches Some(s) ==> imported_callee(
            collector.collected_names(),
            collector.collected_aliases(),
            *call_expr,
        ) == Some(s@),
        r is None ==> imported_callee(collector.collected_names(), collector.collected_aliases(), *call_expr)
            is None,
{
    if let JsCallee::Expr(expr) = &call_expr.callee {
        if let JsExpr::Ident(ident) = &**expr {
            let name = ident.sym.as_str();
            if collector.get_imported_names().contains(name) {
                return match collector.get_alias_map().get(name) {
                    Some(original) => Some(owned(original.as_str())),
                    None => Some(owned(name)),
                };
            }
        }
    }
    None
}

/// Whether the call is a `defineMessages` call (the imported name or an alias of it).
pub fn is_define_messages_call<T: ImportCollector>(collector: &T, call_expr: &JsCallExpr) -> (r: bool)
    ensures
        r == spec_is_define_messages_call(collector.collected_names(), collector.collected_aliases(), *call_expr),
{
    match imported_callee_exec(collector, call_expr) {
        Some(name) => str_eq(name.as_str(), "defineMessages"),
        None => false,
    }
}

/// Whether the call is a `formatMessage` call: a method named `formatMessage`,
/// or the imported name or an alias of it.
pub fn is_format_message_call<T: ImportCollector>(collector: &T, call_expr: &JsCallExpr) -> (r: bool)
    ensures
        r == spec_is_format_message_call(collector.collected_names(), collector.collected_aliases(), *call_expr),
{
    if let JsCallee::Expr(expr) = &call_expr.callee {
        if let JsExpr::Member(member_expr) = &**expr {
            if let JsMemberProp::Ident(prop) = &member_expr.prop {
                if str_eq(prop.sym.as_str(), "formatMessage") {
                    return true;
                }
            }
        }
    }
    match imported_callee_exec(collector, call_expr) {
        Some(name) => str_eq(name.as_str(), "formatMessage"),
        None => false,
    }
}

/// The descriptor fields read so far: `id`, `defaultMessage`, `description`.
pub struct Fields {
    pub id: Option<Seq<char>>,
    pub default_message: Option<Seq<char>>,
    pub description: Option<Seq<char>>,
}

/// No field read yet.
pub open spec fn no_fields() -> Fields {
    Fields { id: None, default_message: None, description: None }
}

/// The fields after reading one more property; `None` when its key has no
/// name (a computed key), which makes the whole object unreadable.
pub open spec fn field_step(f: Fields, p: JsPropOrSpread) -> Option<Fields> {
    match p {
        JsPropOrSpread::Prop(b) => match *b {
            JsProp::KeyValue(kv) => match prop_name(kv.key) {
                None => None,
                Some(k) => Some(
                    if k == "id"@ {
                        Fields { id: expr_string(*kv.value), ..f }
                    } else if k == "defaultMessage"@ {
                        Fields { default_message: expr_string(*kv.value), ..f }
                    } else if k == "description"@ {
                        Fields { description: expr_string(*kv.value), ..f }
                    } else {
                        f
                    },
                ),
            },
            JsProp::Other(_) => Some(f),
        },
        JsPropOrSpread::Spread(_) => Some(f),
    }
}

/// The descriptor fields of a list of properties; a later property with the
/// same name wins.
pub open spec fn scan_fields(props: Seq<JsPropOrSpread>) -> Option<Fields>
    decreases props.len(),
{
    if props.len() == 0 {
        Some(no_fields())
    } else {
        match scan_fields(props.drop_last()) {
            None => None,
            Some(f) => field_step(f, props.last()),
        }
    }
}

/// What the ID of a descriptor is generated from: its key when it has one,
/// else its default message; with the description.
pub open spec fn descriptor_source(key: Option<Seq<char>>, dm: Seq<char>, description: Option<Seq<char>>) -> IdSource {
    match key {
        Some(k) => IdSource::Key(k, description),
        None => IdSource::Descriptor(dm, description),
    }
}

/// The message of a descriptor object and whether its ID is to be inserted.
/// An existing `id` is kept; without one, a `defaultMessage` is needed and the
/// ID is generated. `None` when the object is not a readable message.
pub open spec fn spec_message_object(
    obj: JsObjectLit,
    state: CoreState,
    key: Option<Seq<char>>,
    scheme: HashScheme,
) -> Option<(MessageSpec, bool)> {
    match scan_fields(obj.props@) {
        None => None,
        Some(f) => match f.id {
            Some(id) => Some((MessageSpec { id, default_message: f.default_message, description: f.description }, false)),
            None => match f.default_message {
                None => None,
                Some(dm) => Some(
                    (
                        MessageSpec {
                            id: id_of(state, descriptor_source(key, dm, f.description), scheme),
                            default_message: Some(dm),
                            description: f.description,
                        },
                        true,
                    ),
                ),
            },
        },
    }
}

/// The ID that a descriptor object would be given can be hashed.
pub open spec fn message_object_hashable(obj: JsObjectLit, state: CoreState, key: Option<Seq<char>>, scheme: HashScheme) -> bool {
    match scan_fields(obj.props@) {
        Some(f) => match (f.id, f.default_message) {
            (None, Some(dm)) => id_hashable(state, descriptor_source(key, dm, f.description), scheme),
            _ => true,
        },
        None => true,
    }
}

/// The view of an analysis result.
pub open spec fn opt_message(r: Option<(TransformedMessageData, bool)>) -> Option<(MessageSpec, bool)> {
    match r {
        Some((t, b)) => Some((t@, b)),
        None => None,
    }
}

/// The view of an optional string slice.
pub open spec fn opt_str(o: Option<&str>) -> Option<Seq<char>> {
    match o {
        Some(s) => Some(s@),
        None => None,
    }
}

/// The view of an optional string.
pub open spec fn opt_string_view(o: Option<String>) -> Option<Seq<char>> {
    match o {
        Some(s) => Some(s@),
        None => None,
    }
}

/// Reads the descriptor fields of a list of properties.
fn read_fields(obj_lit: &JsObjectLit) -> (r: Option<(Option<String>, Option<String>, Option<String>)>)
    ensures
        r matches Some((i, d, s)) ==> scan_fields(obj_lit.props@) == Some(
            Fields { id: opt_string_view(i), default_message: opt_string_view(d), description: opt_string_view(s) },
        ),
        r is None ==> scan_fields(obj_lit.props@) is None,
{
    let mut id_prop: Option<String> = None;
    let mut default_message_prop: Option<String> = None;
    let mut description_prop: Option<String> = None;
    let mut i: usize = 0;
    assert(obj_lit.props@.take(0) =~= Seq::<JsPropOrSpread>::empty());
    while i < obj_lit.props.len()
        invariant
            i <= obj_lit.props.len(),
            scan_fields(obj_lit.props@.take(i as int)) == Some(
                Fields {
                    id: opt_string_view(id_prop),
                    default_message: opt_string_view(default_message_prop),
                    description: opt_string_view(description_prop),
                },
            ),
        decreases obj_lit.props.len() - i,
    {
        assert(obj_lit.props@.take(i + 1).drop_last() =~= obj_lit.props@.take(i as int));
        assert(obj_lit.props@.take(i + 1).last() == obj_lit.props@[i as int]);
        if let JsPropOrSpread::Prop(prop) = &obj_lit.props[i] {
            if let JsProp::KeyValue(kv) = &**prop {
                let key_str = match extract_prop_name(&kv.key) {
                    Some(k) => k,
                    None => {
                        proof {
                            lemma_scan_none_extends(obj_lit.props@, i as int + 1);
                        }
                        return None;
                    },
                };
                if str_eq(key_str.as_str(), "id") {
                    id_prop = extract_expr_string(&kv.value);
                } else if str_eq(key_str.as_str(), "defaultMessage") {
                    default_message_prop = extract_expr_string(&kv.value);
                } else if str_eq(key_str.as_str(), "description") {
                    description_prop = extract_expr_string(&kv.value);
                }
            }
        }
        i = i + 1;
    }
    assert(obj_lit.props@.take(i as int) =~= obj_lit.props@);
    Some((id_prop, default_message_prop, description_prop))
}

/// Once a prefix of the properties is unreadable, so is every longer one.
proof fn lemma_scan_none_extends(props: Seq<JsPropOrSpread>, n: int)
    requires
        0 <= n <= props.len(),
        scan_fields(props.take(n)) is None,
    ensures
        scan_fields(props) is None,
    decreases props.len() - n,
{
    if n < props.len() {
        assert(props.take(n + 1).drop_last() =~= props.take(n));
        lemma_scan_none_extends(props, n + 1);
    } else {
        assert(props.take(n) =~= props);
    }
}

/// Analyzes a message descriptor object in the given hash scheme.
pub fn analyze_message_object_with(
    obj_lit: &JsObjectLit,
    state: &CoreState,
    key: Option<&str>,
    scheme: HashScheme,
) -> (r: Option<(TransformedMessageData, bool)>)
    requires
        message_object_hashable(*obj_lit, *state, opt_str(key), scheme),
    ensures
        opt_message(r) == spec_message_object(*obj_lit, *state, opt_str(key), scheme),
{
    let (id_prop, default_message_prop, description_prop) = match read_fields(obj_lit) {
        None => return None,
        Some(f) => f,
    };
    if let Some(existing_id) = id_prop {
        let transformed = TransformedMessageData {
            id: existing_id,
            default_message: default_message_prop,
            description: description_prop,
        };
        return Some((transformed, false));
    }
    let default_message = match &default_message_prop {
        Some(d) => d,
        None => return None,
    };
    let generated_id = match key {
        Some(k) => {
            let key_string = owned(k);
            let payload = GenIdPayload::Key(GenIdFromKeyPayload { key: &key_string, description: &description_prop });
            generate_message_id_with(state, &payload, scheme)
        },
        None => {
            let payload = GenIdPayload::Descriptor(
                GenIdFromDescriptorPayload { default_message, description: &description_prop },
            );
            generate_message_id_with(state, &payload, scheme)
        },
    };
    let transformed = TransformedMessageData {
        id: generated_id,
        default_message: default_message_prop,
        description: description_prop,
    };
    Some((transformed, true))
}

/// The message of one `defineMessages` property, with its key: an object
/// value is a descriptor, a string value is the default message.
pub open spec fn spec_define_property(prop: JsProp, state: CoreState, scheme: HashScheme) -> Option<
    (Seq<char>, MessageSpec, bool),
> {
    match prop {
        JsProp::KeyValue(kv) => match prop_name(kv.key) {
            None => None,
            Some(k) => match *kv.value {
                JsExpr::Object(o) => match spec_message_object(o, state, Some(k), scheme) {
                    Some((m, b)) => Some((k, m, b)),
                    None => None,
                },
                v => match expr_string(v) {
                    Some(dm) => Some(
                        (
                            k,
                            MessageSpec {
                                id: id_of(state, IdSource::Key(k, None), scheme),
                                default_message: Some(dm),
                                description: None,
                            },
                            true,
                        ),
                    ),
                    None => None,
                },
            },
        },
        JsProp::Other(_) => None,
    }
}

/// The ID that a `defineMessages` property would be given can be hashed.
pub open spec fn define_property_hashable(prop: JsProp, state: CoreState, scheme: HashScheme) -> bool {
    match prop {
        JsProp::KeyValue(kv) => match prop_name(kv.key) {
            None => true,
            Some(k) => match *kv.value {
                JsExpr::Object(o) => message_object_hashable(o, state, Some(k), scheme),
                v => expr_string(v) is Some ==> id_hashable(state, IdSource::Key(k, None), scheme),
            },
        },
        JsProp::Other(_) => true,
    }
}

/// The messages of the properties of a `defineMessages` object, in order.
pub open spec fn define_results(props: Seq<JsPropOrSpread>, state: CoreState, scheme: HashScheme) -> Seq<
    (Seq<char>, MessageSpec, bool),
>
    decreases props.len(),
{
    if props.len() == 0 {
        Seq::empty()
    } else {
        define_results(props.drop_last(), state, scheme) + match props.last() {
            JsPropOrSpread::Prop(b) => match spec_define_property(*b, state, scheme) {
                Some(x) => seq![x],
                None => Seq::empty(),
            },
            JsPropOrSpread::Spread(_) => Seq::empty(),
        }
    }
}

/// Every property of a `defineMessages` object can be given its ID.
pub open spec fn define_props_hashable(props: Seq<JsPropOrSpread>, state: CoreState, scheme: HashScheme) -> bool {
    forall|i: int|
        0 <= i < props.len() ==> match #[trigger] props[i] {
            JsPropOrSpread::Prop(b) => define_property_hashable(*b, state, scheme),
            JsPropOrSpread::Spread(_) => true,
        }
}

/// The descriptor object a call passes first, if it passes one.
pub open spec fn first_object(call: JsCallExpr) -> Option<JsObjectLit> {
    if call.args.len() > 0 {
        match *call.args[0].expr {
            JsExpr::Object(o) => Some(o),
            _ => None,
        }
    } else {
        None
    }
}

/// The messages of a `defineMessages` call.
pub open spec fn spec_define_messages(call: JsCallExpr, state: CoreState, scheme: HashScheme) -> Seq<
    (Seq<char>, MessageSpec, bool),
> {
    match first_object(call) {
        Some(o) => define_results(o.props@, state, scheme),
        None => Seq::empty(),
    }
}

/// Every message of a `defineMessages` call can be given its ID.
pub open spec fn define_messages_hashable(call: JsCallExpr, state: CoreState, scheme: HashScheme) -> bool {
    match first_object(call) {
        Some(o) => define_props_hashable(o.props@, state, scheme),
        None => true,
    }
}

/// The view of a list of keyed messages.
pub open spec fn keyed_messages(v: Seq<(String, TransformedMessageData, bool)>) -> Seq<(Seq<char>, MessageSpec, bool)> {
    v.map_values(|x: (String, TransformedMessageData, bool)| (x.0@, x.1@, x.2))
}

/// Analyzes one `defineMessages` property in the given hash scheme.
pub fn analyze_define_messages_object_property_with(
    prop: &JsProp,
    state: &CoreState,
    scheme: HashScheme,
) -> (r: Option<(String, TransformedMessageData, bool)>)
    requires
        define_property_hashable(*prop, *state, scheme),
    ensures
        r matches Some(x) ==> spec_define_property(*prop, *state, scheme) == Some((x.0@, x.1@, x.2)),
        r is None ==> spec_define_property(*prop, *state, scheme) is None,
{
    match prop {
        JsProp::KeyValue(kv) => {
            let key_name = match extract_prop_name(&kv.key) {
                Some(k) => k,
                None => return None,
            };
            match &*kv.value {
                JsExpr::Object(obj_lit) => {
                    match analyze_message_object_with(obj_lit, state, Some(key_name.as_str()), scheme) {
                        Some((md, td)) => Some((key_name, md, td)),
                        None => None,
                    }
                },
                _ => {
                    let default_message_prop = extract_expr_string(&kv.value);
                    if default_message_prop.is_some() {
                        let none: Option<String> = None;
                        let payload = GenIdPayload::Key(GenIdFromKeyPayload { key: &key_name, description: &none });
                        let transformed = TransformedMessageData {
                            id: generate_message_id_with(state, &payload, scheme),
                            default_message: default_message_prop,
                            description: None,
                        };
                        return Some((key_name, transformed, true));
                    }
                    None
                },
            }
        },
        JsProp::Other(_) => None,
    }
}

/// Analyzes the properties of a `defineMessages` object in the given hash
/// scheme: the message of each property that holds one, in order.
pub fn analyze_define_messages_object_with(obj_lit: &JsObjectLit, state: &CoreState, scheme: HashScheme) -> (r: Vec<
    (String, TransformedMessageData, bool),
>)
    requires
        define_props_hashable(obj_lit.props@, *state, scheme),
    ensures
        keyed_messages(r@) == define_results(obj_lit.props@, *state, scheme),
{
    let mut messages: Vec<(String, TransformedMessageData, bool)> = Vec::new();
    let mut i: usize = 0;
    assert(obj_lit.props@.take(0) =~= Seq::<JsPropOrSpread>::empty());
    assert(keyed_messages(messages@) =~= Seq::<(Seq<char>, MessageSpec, bool)>::empty());
    while i < obj_lit.props.len()
        invariant
            i <= obj_lit.props.len(),
            define_props_hashable(obj_lit.props@, *state, scheme),
            keyed_messages(messages@) == define_results(obj_lit.props@.take(i as int), *state, scheme),
        decreases obj_lit.props.len() - i,
    {
        assert(obj_lit.props@.take(i + 1).drop_last() =~= obj_lit.props@.take(i as int));
        assert(obj_lit.props@.take(i + 1).last() == obj_lit.props@[i as int]);
        let ghost before = messages@;
        if let JsPropOrSpread::Prop(prop) = &obj_lit.props[i] {
            if let Some(x) = analyze_define_messages_object_property_with(prop, state, scheme) {
                messages.push(x);
                assert(keyed_messages(messages@) =~= keyed_messages(before) + seq![(x.0@, x.1@, x.2)]);
            } else {
                assert(keyed_messages(messages@) =~= keyed_messages(before) + Seq::<(Seq<char>, MessageSpec, bool)>::empty());
            }
        } else {
            assert(keyed_messages(messages@) =~= keyed_messages(before) + Seq::<(Seq<char>, MessageSpec, bool)>::empty());
        }
        i = i + 1;
    }
    assert(obj_lit.props@.take(i as int) =~= obj_lit.props@);
    messages
}

/// Analyzes a `defineMessages` call in the given hash scheme: the message of
/// each property of its object argument that holds one, in order, with its key
/// and whether its ID is to be inserted.
pub fn analyze_define_messages_with(call: &JsCallExpr, state: &CoreState, scheme: HashScheme) -> (r: Vec<
    (String, TransformedMessageData, bool),
>)
    requires
        define_messages_hashable(*call, *state, scheme),
    ensures
        keyed_messages(r@) == spec_define_messages(*call, *state, scheme),
{
    if call.args.len() > 0 {
        if let JsExpr::Object(obj_lit) = &*call.args[0].expr {
            return analyze_define_messages_object_with(obj_lit, state, scheme);
        }
    }
    let r: Vec<(String, TransformedMessageData, bool)> = Vec::new();
    assert(keyed_messages(r@) =~= Seq::<(Seq<char>, MessageSpec, bool)>::empty());
    r
}

/// Analyzes a `formatMessage` call in the given hash scheme: the message of its
/// descriptor object argument.
pub fn analyze_format_message_with(call: &JsCallExpr, state: &CoreState, scheme: HashScheme) -> (r: Option<
    (TransformedMessageData, bool),
>)
    requires
        first_object(*call) matches Some(o) ==> message_object_hashable(o, *state, None, scheme),
    ensures
        opt_message(r) == match first_object(*call) {
            Some(o) => spec_message_object(o, *state, None, scheme),
            None => None,
        },
{
    if call.args.len() > 0 {
        if let JsExpr::Object(obj_lit) = &*call.args[0].expr {
            return analyze_message_object_with(obj_lit, state, None, scheme);
        }
    }
    None
}

/// Analyzes a `defineMessages` call: the message of each property of its
/// object argument that holds one, in order, with its key and whether its ID is
/// to be inserted.
pub fn analyze_define_messages(call: &JsCallExpr, state: &CoreState) -> (r: Vec<(String, TransformedMessageData, bool)>)
    requires
        define_messages_hashable(*call, *state, HashScheme::Base64),
    ensures
        keyed_messages(r@) == spec_define_messages(*call, *state, HashScheme::Base64),
{
    analyze_define_messages_with(call, state, HashScheme::Base64)
}

/// Analyzes a `formatMessage` call: the message of its descriptor object
/// argument, and whether its ID is to be inserted.
pub fn analyze_format_message(call: &JsCallExpr, state: &CoreState) -> (r: Option<(TransformedMessageData, bool)>)
    requires
        first_object(*call) matches Some(o) ==> message_object_hashable(o, *state, None, HashScheme::Base64),
    ensures
        opt_message(r) == match first_object(*call) {
            Some(o) => spec_message_object(o, *state, None, HashScheme::Base64),
            None => None,
        },
{
    analyze_format_message_with(call, state, HashScheme::Base64)
}

/// Whether the ID that a descriptor object would be given can be hashed.
pub fn message_object_hashable_exec(obj_lit: &JsObjectLit, state: &CoreState, key: Option<&str>, scheme: HashScheme) -> (r:
    bool)
    ensures
        r == message_object_hashable(*obj_lit, *state, opt_str(key), scheme),
{
    let (id_prop, default_message_prop, description_prop) = match read_fields(obj_lit) {
        None => return true,
        Some(f) => f,
    };
    if id_prop.is_some() {
        return true;
    }
    let default_message = match &default_message_prop {
        Some(d) => d,
        None => return true,
    };
    match key {
        Some(k) => {
            let key_string = owned(k);
            let payload = GenIdPayload::Key(GenIdFromKeyPayload { key: &key_string, description: &description_prop });
            message_id_hashable_exec(state, &payload, scheme)
        },
        None => {
            let payload = GenIdPayload::Descriptor(
                GenIdFromDescriptorPayload { default_message, description: &description_prop },
            );
            message_id_hashable_exec(state, &payload, scheme)
        },
    }
}

/// Whether the ID that a `defineMessages` property would be given can be
/// hashed.
pub fn define_property_hashable_exec(prop: &JsProp, state: &CoreState, scheme: HashScheme) -> (r: bool)
    ensures
        r == define_property_hashable(*prop, *state, scheme),
{
    match prop {
        JsProp::KeyValue(kv) => {
            let key_name = match extract_prop_name(&kv.key) {
                Some(k) => k,
                None => return true,
            };
            match &*kv.value {
                JsExpr::Object(obj_lit) => message_object_hashable_exec(obj_lit, state, Some(key_name.as_str()), scheme),
                _ => {
                    if extract_expr_string(&kv.value).is_some() {
                        let none: Option<String> = None;
                        let payload = GenIdPayload::Key(GenIdFromKeyPayload { key: &key_name, description: &none });
                        message_id_hashable_exec(state, &payload, scheme)
                    } else {
                        true
                    }
                },
            }
        },
        JsProp::Other(_) => true,
    }
}

/// Whether every property of a `defineMessages` object can be given its ID.
pub fn define_props_hashable_exec(props: &Vec<JsPropOrSpread>, state: &CoreState, scheme: HashScheme) -> (r: bool)
    ensures
        r == define_props_hashable(props@, *state, scheme),
{
    let mut i: usize = 0;
    while i < props.len()
        invariant
            i <= props.len(),
            forall|j: int|
                0 <= j < i ==> match #[trigger] props@[j] {
                    JsPropOrSpread::Prop(b) => define_property_hashable(*b, *state, scheme),
                    JsPropOrSpread::Spread(_) => true,
                },
        decreases props.len() - i,
    {
        if let JsPropOrSpread::Prop(b) = &props[i] {
            if !define_property_hashable_exec(b, state, scheme) {
                assert(!match props@[i as int] {
                    JsPropOrSpread::Prop(b) => define_property_hashable(*b, *state, scheme),
                    JsPropOrSpread::Spread(_) => true,
                });
                return false;
            }
        }
        i = i + 1;
    }
    true
}

/// Law (descriptor analysis): a static `id` gives the message with that ID,
/// kept as it is; without one, a descriptor without a static `defaultMessage`
/// gives no message, and one with it gives the message with the ID generated
/// from the key (and description) when there is a key, else from the default
/// message (and description), to be inserted.
pub proof fn law_message_object_analysis(obj: JsObjectLit, state: CoreState, key: Option<Seq<char>>, scheme: HashScheme)
    requires
        scan_fields(obj.props@) is Some,
    ensures
        ({
            let f = scan_fields(obj.props@).unwrap();
            &&& f.id matches Some(v) ==> (spec_message_object(obj, state, key, scheme) matches Some((m, b)) && m.id == v
                && !b && m.default_message == f.default_message && m.description == f.description)
            &&& (f.id is None && f.default_message is None) ==> spec_message_object(obj, state, key, scheme) is None
            &&& (f.id is None && f.default_message is Some) ==> {
                let dm = f.default_message.unwrap();
                &&& spec_message_object(obj, state, key, scheme) matches Some((m, b))
                &&& b
                &&& m.default_message == Some(dm)
                &&& m.id == id_of(
                    state,
                    match key {
                        Some(k) => IdSource::Key(k, f.description),
                        None => IdSource::Descriptor(dm, f.description),
                    },
                    scheme,
                )
            }
        }),
{
}

/// Law: a `defineMessages` property depends on its key only through the key's
/// name: keys with the same name (such as the string key `'k'` and the
/// identifier key `k`) give the same message for the same value.
pub proof fn law_define_property_reads_key_name(
    k1: JsPropName,
    k2: JsPropName,
    value: Box<JsExpr>,
    state: CoreState,
    scheme: HashScheme,
)
    requires
        prop_name(k1) == prop_name(k2),
    ensures
        spec_define_property(JsProp::KeyValue(JsKeyValueProp { key: k1, value }), state, scheme)
            == spec_define_property(JsProp::KeyValue(JsKeyValueProp { key: k2, value }), state, scheme),
{
}

/// Law: a string key and an identifier key are named by their text, and a
/// property with such a key and a string value gives the message with that
/// text as its key, the key's ID and the string as its default message.
pub proof fn law_define_property_string_value(
    key: JsPropName,
    s: JsStr,
    state: CoreState,
    scheme: HashScheme,
)
    requires
        key is Ident || key is Str,
    ensures
        ({
            let k = match key {
                JsPropName::Ident(i) => i.sym@,
                JsPropName::Str(t) => t.value@,
                _ => Seq::empty(),
            };
            &&& prop_name(key) == Some(k)
            &&& spec_define_property(
                JsProp::KeyValue(JsKeyValueProp { key, value: Box::new(JsExpr::Lit(JsLit::Str(s))) }),
                state,
                scheme,
            ) == Some(
                (
                    k,
                    MessageSpec {
                        id: id_of(state, IdSource::Key(k, None), scheme),
                        default_message: Some(s.value@),
                        description: None,
                    },
                    true,
                ),
            )
        }),
{
}

} // verus!




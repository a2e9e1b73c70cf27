//! Messages declared by `FormattedMessage` elements.

use vstd::prelude::*;
use crate::ast_call::{opt_message, opt_string_view};
use crate::ast_import::ImportVisitor;
use crate::ast_utils::{expr_string, extract_expr_string};
use crate::gen_id::{join_parts, raw_id, scheme_hash, generate_message_id_with, id_hashable, message_id_hashable_exec, id_of, GenIdFromDescriptorPayload, GenIdPayload, HashScheme, IdSource};
use crate::names::{AliasMap, NameSet};
use crate::syntax::{JsIdent, JsSpan, JsStr, JsxAttr, JsxAttrName, JsxAttrOrSpread, JsxAttrValue, JsxElement, JsxExpr};
use crate::text::{owned, str_eq};
use crate::types::{is_react_component_name, react_components_contains, CoreState, MessageSpec, TransformedMessageData};

verus! {

/// The element named `name` is a React Intl component imported from the React
/// Intl module: the name (or what it is an alias of) is one of the components,
/// and the name itself was imported.
pub open spec fn spec_is_react_intl_component(names: Set<Seq<char>>, aliases: AliasMap, name: Seq<char>) -> bool {
    let component = match aliases.spec_get(name) {
        Some(original) => original,
        None => name,
    };
    is_react_component_name(component) && names.contains(name)
}

/// Whether the element named `name` is a React Intl component imported from
/// the React Intl module.
pub fn is_react_intl_component(import_visitor: &ImportVisitor, name: &JsIdent) -> (r: bool)
    ensures
        r == spec_is_react_intl_component(import_visitor.imported_names@, import_visitor.alias_map, name.sym@),
{
    let name_str = name.sym.as_str();
    let component_name = match import_visitor.alias_map.get(name_str) {
        Some(original) => original.as_str(),
        None => name_str,
    };
    react_components_contains(component_name) && import_visitor.imported_names.contains(name_str)
}

/// The string an attribute's value denotes statically: a string, or a string
/// expression in braces.
pub open spec fn attr_string(attr: JsxAttr) -> Option<Seq<char>> {
    match attr.value {
        Some(JsxAttrValue::Str(s)) => Some(s.value@),
        Some(JsxAttrValue::JSXExprContainer(c)) => match c.expr {
            JsxExpr::Expr(e) => expr_string(*e),
            _ => None,
        },
        _ => None,
    }
}

/// Extracts the string value of a JSX attribute.
pub fn extract_jsx_attr_value(jsx_attr: &JsxAttr) -> (r: Option<String>)
    ensures
        opt_string_view(r) == attr_string(*jsx_attr),
{
    match &jsx_attr.value {
        Some(JsxAttrValue::Str(s)) => Some(owned(s.value.as_str())),
        Some(JsxAttrValue::JSXExprContainer(c)) => match &c.expr {
            JsxExpr::Expr(e) => extract_expr_string(e),
            _ => None,
        },
        _ => None,
    }
}

/// The message attributes: `id`, `defaultMessage`, `description`.
pub struct AttrFields {
    pub id: Option<Seq<char>>,
    pub default_message: Option<Seq<char>>,
    pub description: Option<Seq<char>>,
}

/// The attributes after reading one more; a later attribute with the same name
/// wins.
pub open spec fn attr_step(f: AttrFields, a: JsxAttrOrSpread) -> AttrFields {
    match a {
        JsxAttrOrSpread::JSXAttr(attr) => match attr.name {
            JsxAttrName::Ident(n) => if n.sym@ == "id"@ {
                AttrFields { id: attr_string(attr), ..f }
            } else if n.sym@ == "defaultMessage"@ {
                AttrFields { default_message: attr_string(attr), ..f }
            } else if n.sym@ == "description"@ {
                AttrFields { description: attr_string(attr), ..f }
            } else {
                f
            },
            _ => f,
        },
        _ => f,
    }
}

/// The message attributes of a list of attributes.
pub open spec fn scan_attrs(attrs: Seq<JsxAttrOrSpread>) -> AttrFields
    decreases attrs.len(),
{
    if attrs.len() == 0 {
        AttrFields { id: None, default_message: None, description: None }
    } else {
        attr_step(scan_attrs(attrs.drop_last()), attrs.last())
    }
}

/// Extracts the message attributes of an element: (id, defaultMessage, description).
pub fn extract_jsx_attributes(element: &JsxElement) -> (r: (Option<String>, Option<String>, Option<String>))
    ensures
        scan_attrs(element.opening.attrs@) == (AttrFields {
            id: opt_string_view(r.0),
            default_message: opt_string_view(r.1),
            description: opt_string_view(r.2),
        }),
{
    let attrs = &element.opening.attrs;
    let mut id: Option<String> = None;
    let mut default_message: Option<String> = None;
    let mut description: Option<String> = None;
    let mut i: usize = 0;
    assert(attrs@.take(0) =~= Seq::<JsxAttrOrSpread>::empty());
    while i < attrs.len()
        invariant
            i <= attrs.len(),
            scan_attrs(attrs@.take(i as int)) == (AttrFields {
                id: opt_string_view(id),
                default_message: opt_string_view(default_message),
                description: opt_string_view(description),
            }),
        decreases attrs.len() - i,
    {
        assert(attrs@.take(i + 1).drop_last() =~= attrs@.take(i as int));
        assert(attrs@.take(i + 1).last() == attrs@[i as int]);
        if let JsxAttrOrSpread::JSXAttr(jsx_attr) = &attrs[i] {
            if let JsxAttrName::Ident(name) = &jsx_attr.name {
                if str_eq(name.sym.as_str(), "id") {
                    id = extract_jsx_attr_value(jsx_attr);
                } else if str_eq(name.sym.as_str(), "defaultMessage") {
                    default_message = extract_jsx_attr_value(jsx_attr);
                } else if str_eq(name.sym.as_str(), "description") {
                    description = extract_jsx_attr_value(jsx_attr);
                }
            }
        }
        i = i + 1;
    }
    assert(attrs@.take(i as int) =~= attrs@);
    (id, default_message, description)
}

/// The message of an element and whether its ID is to be inserted: an existing
/// `id` is kept; without one, a `defaultMessage` is needed and the ID is
/// generated from it and the description.
pub open spec fn spec_jsx_message(element: JsxElement, state: CoreState, scheme: HashScheme) -> Option<(MessageSpec, bool)> {
    let f = scan_attrs(element.opening.attrs@);
    match f.id {
        Some(id) => Some((MessageSpec { id, default_message: f.default_message, description: f.description }, false)),
        None => match f.default_message {
            None => None,
            Some(dm) => Some(
                (
                    MessageSpec {
                        id: id_of(state, IdSource::Descriptor(dm, f.description), scheme),
                        default_message: Some(dm),
                        description: f.description,
                    },
                    true,
                ),
            ),
        },
    }
}

/// The ID that an element would be given can be hashed.
pub open spec fn jsx_message_hashable(element: JsxElement, state: CoreState, scheme: HashScheme) -> bool {
    let f = scan_attrs(element.opening.attrs@);
    match (f.id, f.default_message) {
        (None, Some(dm)) => id_hashable(state, IdSource::Descriptor(dm, f.description), scheme),
        _ => true,
    }
}

/// Analyzes a JSX element in the given hash scheme.
pub fn analyze_jsx_element_with(element: &JsxElement, state: &CoreState, scheme: HashScheme) -> (r: Option<(TransformedMessageData, bool)>)
    requires
        jsx_message_hashable(*element, *state, scheme),
    ensures
        opt_message(r) == spec_jsx_message(*element, *state, scheme),
{
    let (id_attr, default_message_attr, description_attr) = extract_jsx_attributes(element);
    if let Some(existing_id) = id_attr {
        return Some((TransformedMessageData { id: existing_id, default_message: default_message_attr, description: description_attr }, false));
    }
    let default_message = match &default_message_attr {
        Some(d) => d,
        None => return None,
    };
    let payload = GenIdPayload::Descriptor(GenIdFromDescriptorPayload { default_message, description: &description_attr });
    let generated_id = generate_message_id_with(state, &payload, scheme);
    Some((TransformedMessageData { id: generated_id, default_message: default_message_attr, description: description_attr }, true))
}

/// Analyzes a JSX element: its message, and whether its ID is to be inserted.
pub fn analyze_jsx_element(element: &JsxElement, state: &CoreState) -> (r: Option<(TransformedMessageData, bool)>)
    requires
        jsx_message_hashable(*element, *state, HashScheme::Base64),
    ensures
        opt_message(r) == spec_jsx_message(*element, *state, HashScheme::Base64),
{
    analyze_jsx_element_with(element, state, HashScheme::Base64)
}

/// Whether the ID that an element would be given can be hashed.
pub fn jsx_message_hashable_exec(element: &JsxElement, state: &CoreState, scheme: HashScheme) -> (r: bool)
    ensures
        r == jsx_message_hashable(*element, *state, scheme),
{
    let (id_attr, default_message_attr, description_attr) = extract_jsx_attributes(element);
    if id_attr.is_some() {
        return true;
    }
    match &default_message_attr {
        None => true,
        Some(d) => {
            let payload = GenIdPayload::Descriptor(GenIdFromDescriptorPayload { default_message: d, description: &description_attr });
            message_id_hashable_exec(state, &payload, scheme)
        },
    }
}

/// Law (element analysis): an `id` attribute with a static value gives the
/// message with that ID, kept as it is; without one, a static
/// `defaultMessage` gives the message with the ID generated from it and the
/// description, to be inserted; without either, there is no message. Without
/// `hash_id`, a generated ID ends with the hash of the default message (and
/// description).
pub proof fn law_jsx_analysis(element: JsxElement, state: CoreState, scheme: HashScheme)
    ensures
        ({
            let f = scan_attrs(element.opening.attrs@);
            &&& f.id matches Some(v) ==> (spec_jsx_message(element, state, scheme) matches Some((m, b)) && m.id == v && !b)
            &&& (f.id is None && f.default_message is None) ==> spec_jsx_message(element, state, scheme) is None
            &&& (f.id is None && f.default_message is Some) ==> {
                let dm = f.default_message.unwrap();
                &&& spec_jsx_message(element, state, scheme) matches Some((m, b))
                &&& b
                &&& m.id == id_of(state, IdSource::Descriptor(dm, f.description), scheme)
                &&& m.default_message == Some(dm)
                &&& !state.opts.hash_id ==> {
                    let h = scheme_hash(scheme, join_parts(dm, f.description, state.opts.separator@));
                    m.id.skip(m.id.len() - h.len()) == h
                }
            }
        }),
{
    let f = scan_attrs(element.opening.attrs@);
    if f.id is None {
        if let Some(dm) = f.default_message {
            let raw = raw_id(IdSource::Descriptor(dm, f.description), state.opts.separator@, scheme);
            crate::gen_path::law_add_prefix_keeps_suffix(state, raw);
        }
    }
}

/// Law: a `description` attribute with a string value sets the description
/// that the message carries, whatever came before it, and leaves the `id` and
/// `defaultMessage` read so far as they were.
pub proof fn law_description_attribute_is_read(
    attrs: Seq<JsxAttrOrSpread>,
    span: JsSpan,
    name: JsIdent,
    value: JsStr,
)
    requires
        name.sym@ == "description"@,
    ensures
        ({
            let a = JsxAttrOrSpread::JSXAttr(
                JsxAttr { span, name: JsxAttrName::Ident(name), value: Some(JsxAttrValue::Str(value)) },
            );
            &&& scan_attrs(attrs.push(a)).description == Some(value.value@)
            &&& scan_attrs(attrs.push(a)).id == scan_attrs(attrs).id
            &&& scan_attrs(attrs.push(a)).default_message == scan_attrs(attrs).default_message
        }),
{
    let a = JsxAttrOrSpread::JSXAttr(
        JsxAttr { span, name: JsxAttrName::Ident(name), value: Some(JsxAttrValue::Str(value)) },
    );
    reveal_strlit("description");
    reveal_strlit("id");
    reveal_strlit("defaultMessage");
    assert(attrs.push(a).drop_last() =~= attrs);
    assert(name.sym@ != "id"@) by {
        assert(name.sym@.len() != "id"@.len());
    }
    assert(name.sym@ != "defaultMessage"@) by {
        assert(name.sym@.len() != "defaultMessage"@.len());
    }
}

/// Law: an element whose attributes end with a string `defaultMessage` `m`
/// and a string `description` `d` (and hold no `id`) gives the message `m`
/// with description `d`, and its ID is generated from both.
pub proof fn law_jsx_message_carries_description(
    element: JsxElement,
    state: CoreState,
    scheme: HashScheme,
    dm_span: JsSpan,
    dm_name: JsIdent,
    m: JsStr,
    d_span: JsSpan,
    d_name: JsIdent,
    d: JsStr,
)
    requires
        dm_name.sym@ == "defaultMessage"@,
        d_name.sym@ == "description"@,
        element.opening.attrs@.len() >= 2,
        scan_attrs(element.opening.attrs@.drop_last().drop_last()).id is None,
        element.opening.attrs@[element.opening.attrs@.len() - 2] == JsxAttrOrSpread::JSXAttr(
            JsxAttr { span: dm_span, name: JsxAttrName::Ident(dm_name), value: Some(JsxAttrValue::Str(m)) },
        ),
        element.opening.attrs@.last() == JsxAttrOrSpread::JSXAttr(
            JsxAttr { span: d_span, name: JsxAttrName::Ident(d_name), value: Some(JsxAttrValue::Str(d)) },
        ),
    ensures
        spec_jsx_message(element, state, scheme) == Some(
            (
                MessageSpec {
                    id: id_of(state, IdSource::Descriptor(m.value@, Some(d.value@)), scheme),
                    default_message: Some(m.value@),
                    description: Some(d.value@),
                },
                true,
            ),
        ),
{
    let attrs = element.opening.attrs@;
    let base = attrs.drop_last().drop_last();
    reveal_strlit("description");
    reveal_strlit("id");
    reveal_strlit("defaultMessage");
    assert(dm_name.sym@ != "id"@) by {
        assert(dm_name.sym@.len() != "id"@.len());
    }
    assert(attrs.drop_last().drop_last() =~= base);
    assert(attrs.drop_last().last() == attrs[attrs.len() - 2]);
    law_description_attribute_is_read(attrs.drop_last(), d_span, d_name, d);
    assert(attrs.drop_last().push(attrs.last()) =~= attrs);
}

} // verus!




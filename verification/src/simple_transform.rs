//! A minimal transform: IDs made of the file's directory (or stem) and the
//! message's key or the decimal hash of its default message.
//!
//! The caller walks the syntax tree (children before parents) and hands each
//! element and call to these methods.

use vstd::prelude::*;
use crate::hashing::{hashable, murmur_decimal};
use crate::paths::{file_stem, file_stem_exec, parent_text_exec, path_parent_text};
use crate::simple_utils::create_hash;
use crate::rewrite::attr_named;
use crate::syntax::{
    JsCallExpr, JsCallee, JsExpr, JsIdent, JsxAttr, JsxAttrName, JsxAttrOrSpread, JsxAttrValue, JsxElement, JsxElementName,
    JsKeyValueProp, JsLit, JsObjectLit, JsProp, JsPropName, JsPropOrSpread, JsSpan, JsStr, dummy_sp,
};
use crate::text::{chars_of, concat, owned, push_all, replace_all, replace_all_exec, str_eq, string_of};

verus! {

/// The transform's options.
#[derive(Debug, Clone)]
pub struct PluginConfig {
    /// `"true"` drops the path part; any other text is removed wherever it
    /// occurs in it.
    pub remove_prefix: Option<String>,
    /// The path part is the file's stem instead of its directory.
    pub filebase: bool,
    pub separator: String,
}

/// The default separator, `.`.
fn default_separator() -> (r: String)
    ensures
        r@ == "."@,
{
    owned(".")
}

impl Default for PluginConfig {
    fn default() -> (r: Self)
        ensures
            r.remove_prefix is None,
            !r.filebase,
            r.separator@ == "."@,
    {
        PluginConfig { remove_prefix: None, filebase: false, separator: default_separator() }
    }
}

/// The path part of the IDs of `filename`, followed by `suffix`.
pub open spec fn spec_prefix_with_suffix(config: PluginConfig, filename: Seq<char>, suffix: Seq<char>) -> Seq<char> {
    let formatted = if config.filebase {
        match file_stem(filename) {
            Some(s) => s,
            None => Seq::empty(),
        }
    } else {
        match path_parent_text(filename) {
            Some(p) => p,
            None => Seq::empty(),
        }
    };
    let fixed = match config.remove_prefix {
        Some(rp) => if rp@ == "true"@ {
            Seq::empty()
        } else {
            replace_all(formatted, rp@, Seq::empty())
        },
        None => formatted,
    };
    if suffix.len() == 0 {
        fixed
    } else if fixed.len() == 0 {
        suffix
    } else {
        fixed + config.separator@ + suffix
    }
}

/// The entry is a property with the identifier key `id`.
pub open spec fn is_ident_id_key(e: JsPropOrSpread) -> bool {
    match e {
        JsPropOrSpread::Prop(p) => match *p {
            JsProp::KeyValue(kv) => match kv.key {
                JsPropName::Ident(i) => i.sym@ == "id"@,
                _ => false,
            },
            _ => false,
        },
        _ => false,
    }
}

/// `e` is a new property with the identifier key `key` and the value `value`.
pub open spec fn is_ident_prop(e: JsPropOrSpread, key: Seq<char>, value: JsExpr) -> bool {
    match e {
        JsPropOrSpread::Prop(p) => match *p {
            JsProp::KeyValue(kv) => {
                &&& kv.key matches JsPropName::Ident(k)
                &&& k.span == dummy_sp()
                &&& k.sym@ == key
                &&& *kv.value == value
            },
            _ => false,
        },
        _ => false,
    }
}

/// `e` is a new `id` property with an identifier key and the value `id`.
pub open spec fn is_ident_id_entry(e: JsPropOrSpread, id: Seq<char>) -> bool {
    match e {
        JsPropOrSpread::Prop(p) => match *p {
            JsProp::KeyValue(kv) => {
                &&& kv.key matches JsPropName::Ident(k)
                &&& k.span == dummy_sp()
                &&& k.sym@ == "id"@
                &&& *kv.value matches JsExpr::Lit(JsLit::Str(s))
                &&& s.span == dummy_sp()
                &&& s.value@ == id
            },
            _ => false,
        },
        _ => false,
    }
}

/// The entry `a` is what the transform makes of the `defineMessages` entry
/// `b`: under an identifier key, an object without an `id` gets one in front,
/// and a string becomes an object with the `id` and the string as
/// `defaultMessage`; anything else stays.
pub open spec fn object_entry_rewritten(b: JsPropOrSpread, a: JsPropOrSpread, prefix: Seq<char>, separator: Seq<char>) -> bool {
    match b {
        JsPropOrSpread::Prop(bp) => match *bp {
            JsProp::KeyValue(kv) => match kv.key {
                JsPropName::Ident(k) => {
                    let id = prefix + separator + k.sym@;
                    match *kv.value {
                        JsExpr::Object(o) => if exists|i: int| 0 <= i < o.props.len() && #[trigger] is_ident_id_key(o.props@[i]) {
                            a == b
                        } else {
                            match a {
                                JsPropOrSpread::Prop(ap) => match *ap {
                                    JsProp::KeyValue(akv) => akv.key == kv.key && match *akv.value {
                                        JsExpr::Object(ao) => {
                                            &&& ao.span == o.span
                                            &&& ao.props.len() == o.props.len() + 1
                                            &&& ao.props@.drop_first() == o.props@
                                            &&& is_ident_id_entry(ao.props@[0], id)
                                        },
                                        _ => false,
                                    },
                                    _ => false,
                                },
                                _ => false,
                            }
                        },
                        JsExpr::Lit(JsLit::Str(s)) => match a {
                            JsPropOrSpread::Prop(ap) => match *ap {
                                JsProp::KeyValue(akv) => akv.key == kv.key && match *akv.value {
                                    JsExpr::Object(ao) => {
                                        &&& ao.span == dummy_sp()
                                        &&& ao.props.len() == 2
                                        &&& is_ident_id_entry(ao.props@[0], id)
                                        &&& is_ident_prop(ao.props@[1], "defaultMessage"@, JsExpr::Lit(JsLit::Str(s)))
                                    },
                                    _ => false,
                                },
                                _ => false,
                            },
                            _ => false,
                        },
                        _ => a == b,
                    }
                },
                _ => a == b,
            },
            _ => a == b,
        },
        _ => a == b,
    }
}

/// `a` is a new `id` attribute with the value `id`, placed at `span`.
pub open spec fn is_id_attr_at(a: JsxAttrOrSpread, id: Seq<char>, span: JsSpan) -> bool {
    match a {
        JsxAttrOrSpread::JSXAttr(x) => {
            &&& x.span == span
            &&& x.name matches JsxAttrName::Ident(n)
            &&& n.span == span
            &&& n.sym@ == "id"@
            &&& x.value matches Some(JsxAttrValue::Str(s))
            &&& s.span == span
            &&& s.value@ == id
        },
        _ => false,
    }
}

/// The attributes `after` are `before` with an `id` attribute (with value `id`,
/// at `span`) in front of each `defaultMessage` attribute.
pub open spec fn ids_before_messages(before: Seq<JsxAttrOrSpread>, after: Seq<JsxAttrOrSpread>, id: Seq<char>, span: JsSpan) -> bool
    decreases before.len(),
{
    if before.len() == 0 {
        after.len() == 0
    } else if attr_named(before.last(), "defaultMessage"@) {
        &&& after.len() >= 2
        &&& after.last() == before.last()
        &&& is_id_attr_at(after[after.len() - 2], id, span)
        &&& ids_before_messages(before.drop_last(), after.drop_last().drop_last(), id, span)
    } else {
        &&& after.len() >= 1
        &&& after.last() == before.last()
        &&& ids_before_messages(before.drop_last(), after.drop_last(), id, span)
    }
}

/// The last attribute named `name`, if any.
pub open spec fn last_attr_named(attrs: Seq<JsxAttrOrSpread>, name: Seq<char>) -> Option<JsxAttr>
    decreases attrs.len(),
{
    if attrs.len() == 0 {
        None
    } else if attr_named(attrs.last(), name) {
        match attrs.last() {
            JsxAttrOrSpread::JSXAttr(x) => Some(x),
            _ => None,
        }
    } else {
        last_attr_named(attrs.drop_last(), name)
    }
}

/// The `id` an element gets and where its attributes are placed: when it has no
/// `id` attribute and its last `defaultMessage` is a string.
pub open spec fn element_id(config: PluginConfig, filename: Seq<char>, element: JsxElement) -> Option<(Seq<char>, JsSpan)> {
    let attrs = element.opening.attrs@;
    if exists|i: int| 0 <= i < attrs.len() && #[trigger] attr_named(attrs[i], "id"@) {
        None
    } else {
        match last_attr_named(attrs, "defaultMessage"@) {
            Some(dm) => match dm.value {
                Some(JsxAttrValue::Str(s)) => Some(
                    (spec_prefix_with_suffix(config, filename, murmur_decimal(s.value@)), dm.span),
                ),
                _ => None,
            },
            None => None,
        }
    }
}

/// The default message of an element can be hashed whenever its hash is needed.
pub open spec fn element_hashable(element: JsxElement) -> bool {
    match last_attr_named(element.opening.attrs@, "defaultMessage"@) {
        Some(dm) => match dm.value {
            Some(JsxAttrValue::Str(s)) => hashable(s.value@),
            _ => true,
        },
        None => true,
    }
}

/// The call `after` is `before` with the entries of the object it passes first
/// rewritten; a call that passes no object literal first is left as it was.
pub open spec fn define_call_rewritten(config: PluginConfig, filename: Seq<char>, before: JsCallExpr, after: JsCallExpr) -> bool {
    if before.args.len() > 0 && *before.args@[0].expr is Object {
        match *before.args@[0].expr {
            JsExpr::Object(o) => exists|o2: JsObjectLit|
                #![trigger crate::rewrite::first_arg_replaced(before, after, JsExpr::Object(o2))]
                crate::rewrite::first_arg_replaced(before, after, JsExpr::Object(o2)) && o2.span == o.span
                    && o2.props.len() == o.props.len() && forall|i: int|
                    0 <= i < o.props.len() ==> object_entry_rewritten(
                        #[trigger] o.props@[i],
                        o2.props@[i],
                        spec_prefix_with_suffix(config, filename, Seq::empty()),
                        config.separator@,
                    ),
            _ => true,
        }
    } else {
        after == before
    }
}

/// The transform of one file.
pub struct ReactIntlAutoTransform {
    pub config: PluginConfig,
    pub filename: String,
}

impl ReactIntlAutoTransform {
    /// The element name is one of the React Intl components.
    pub fn is_react_intl_component(&self, name: &str) -> (r: bool)
        ensures
            r == (name@ == "FormattedMessage"@ || name@ == "FormattedHTMLMessage"@),
    {
        str_eq(name, "FormattedMessage") || str_eq(name, "FormattedHTMLMessage")
    }

    /// The call is a call of `defineMessages`.
    pub fn is_define_messages_call(&self, call: &JsCallExpr) -> (r: bool)
        ensures
            r == (crate::ast_call::callee_ident(*call) == Some("defineMessages"@)),
    {
        if let JsCallee::Expr(expr) = &call.callee {
            if let JsExpr::Ident(ident) = &**expr {
                return str_eq(ident.sym.as_str(), "defineMessages");
            }
        }
        false
    }

    /// The path part of the IDs, followed by `suffix`.
    pub fn get_prefix_with_suffix(&self, suffix: &str) -> (r: String)
        ensures
            r@ == spec_prefix_with_suffix(self.config, self.filename@, suffix@),
    {
        let formatted: Vec<char> = if self.config.filebase {
            match file_stem_exec(&chars_of(self.filename.as_str())) {
                Some(s) => s,
                None => Vec::new(),
            }
        } else {
            match parent_text_exec(self.filename.as_str()) {
                Some(p) => chars_of(p.as_str()),
                None => Vec::new(),
            }
        };
        let fixed: Vec<char> = match &self.config.remove_prefix {
            Some(remove_prefix) => {
                if str_eq(remove_prefix.as_str(), "true") {
                    Vec::new()
                } else {
                    replace_all_exec(&formatted, &chars_of(remove_prefix.as_str()), &Vec::new())
                }
            },
            None => formatted,
        };
        let suffix_chars = chars_of(suffix);
        if suffix_chars.len() == 0 {
            string_of(&fixed)
        } else if fixed.len() == 0 {
            owned(suffix)
        } else {
            let mut r = concat(&fixed, &chars_of(self.config.separator.as_str()));
            push_all(&mut r, &suffix_chars);
            string_of(&r)
        }
    }

    /// The path part of the IDs.
    pub fn get_prefix(&self) -> (r: String)
        ensures
            r@ == spec_prefix_with_suffix(self.config, self.filename@, Seq::empty()),
    {
        let r = self.get_prefix_with_suffix("");
        proof {
            reveal_strlit("");
        }
        r
    }

    /// The ID of an element with the default message attribute `default_message_attr`:
    /// the path part and the hash of a string message.
    pub fn generate_id_for_jsx(&self, default_message_attr: &JsxAttr) -> (r: Option<String>)
        requires
            default_message_attr.value matches Some(JsxAttrValue::Str(s)) ==> hashable(s.value@),
        ensures
            r matches Some(id) ==> default_message_attr.value matches Some(JsxAttrValue::Str(s)) && id@
                == spec_prefix_with_suffix(self.config, self.filename@, murmur_decimal(s.value@)),
            r is None ==> !(default_message_attr.value is Some && default_message_attr.value.unwrap() is Str),
    {
        let message = match &default_message_attr.value {
            Some(JsxAttrValue::Str(s)) => s.value.as_str(),
            _ => return None,
        };
        let suffix = create_hash(message);
        Some(self.get_prefix_with_suffix(suffix.as_str()))
    }

    /// Inserts the generated ID in front of each `defaultMessage` attribute of an
    /// element without an `id`.
    pub fn process_jsx_element(&self, element: &mut JsxElement)
        requires
            element_hashable(*old(element)),
        ensures
            match element_id(self.config, self.filename@, *old(element)) {
                Some((id, span)) => {
                    &&& final(element).span == old(element).span
                    &&& final(element).opening.name == old(element).opening.name
                    &&& ids_before_messages(old(element).opening.attrs@, final(element).opening.attrs@, id, span)
                },
                None => *final(element) == *old(element),
            },
    {
        let attrs = &element.opening.attrs;
        let mut has_id = false;
        let mut default_message_idx: Option<usize> = None;
        let mut i: usize = 0;
        assert(attrs@.take(0) =~= Seq::<JsxAttrOrSpread>::empty());
        while i < attrs.len()
            invariant
                i <= attrs.len(),
                has_id == exists|j: int| 0 <= j < i && #[trigger] attr_named(attrs@[j], "id"@),
                match default_message_idx {
                    Some(d) => d < i && last_attr_named(attrs@.take(i as int), "defaultMessage"@) == Some(
                        match attrs@[d as int] {
                            JsxAttrOrSpread::JSXAttr(x) => x,
                            _ => arbitrary(),
                        },
                    ) && attrs@[d as int] is JSXAttr,
                    None => last_attr_named(attrs@.take(i as int), "defaultMessage"@) is None,
                },
            decreases attrs.len() - i,
        {
            assert(attrs@.take(i + 1).drop_last() =~= attrs@.take(i as int));
            assert(attrs@.take(i + 1).last() == attrs@[i as int]);
            proof {
                reveal_strlit("id");
                reveal_strlit("defaultMessage");
                assert("id"@.len() == 2);
                assert("defaultMessage"@.len() == 14);
            }
            if let JsxAttrOrSpread::JSXAttr(jsx_attr) = &attrs[i] {
                if let JsxAttrName::Ident(ident) = &jsx_attr.name {
                    if str_eq(ident.sym.as_str(), "id") {
                        has_id = true;
                    } else if str_eq(ident.sym.as_str(), "defaultMessage") {
                        default_message_idx = Some(i);
                    }
                }
            }
            proof {
                if attr_named(attrs@[i as int], "id"@) {
                    assert(has_id);
                } else {
                    assert forall|j: int| 0 <= j < i + 1 && #[trigger] attr_named(attrs@[j], "id"@) implies j < i by {}
                }
            }
            i = i + 1;
        }
        assert(attrs@.take(i as int) =~= attrs@);
        if has_id {
            return;
        }
        let d = match default_message_idx {
            Some(d) => d,
            None => return,
        };
        let (id, span) = match &element.opening.attrs[d] {
            JsxAttrOrSpread::JSXAttr(dm) => match self.generate_id_for_jsx(dm) {
                Some(id) => (id, dm.span),
                None => return,
            },
            _ => return,
        };
        let mut rest: Vec<JsxAttrOrSpread> = Vec::new();
        std::mem::swap(&mut rest, &mut element.opening.attrs);
        let ghost before = rest@;
        let mut new_attrs: Vec<JsxAttrOrSpread> = Vec::new();
        let n = rest.len();
        let mut k: usize = 0;
        assert(before.take(0) =~= Seq::<JsxAttrOrSpread>::empty());
        while k < n
            invariant
                n == before.len(),
                k <= n,
                rest@ == before.skip(k as int),
                ids_before_messages(before.take(k as int), new_attrs@, id@, span),
            decreases n - k,
        {
            let attr = rest.remove(0);
            assert(attr == before[k as int]);
            assert(rest@ =~= before.skip(k + 1));
            assert(before.take(k + 1).drop_last() =~= before.take(k as int));
            assert(before.take(k + 1).last() == before[k as int]);
            let named = match &attr {
                JsxAttrOrSpread::JSXAttr(a) => match &a.name {
                    JsxAttrName::Ident(ident) => str_eq(ident.sym.as_str(), "defaultMessage"),
                    _ => false,
                },
                _ => false,
            };
            let ghost prev = new_attrs@;
            if named {
                new_attrs.push(
                    JsxAttrOrSpread::JSXAttr(
                        JsxAttr {
                            span,
                            name: JsxAttrName::Ident(JsIdent { span, sym: owned("id") }),
                            value: Some(JsxAttrValue::Str(JsStr { span, value: owned(id.as_str()) })),
                        },
                    ),
                );
            }
            new_attrs.push(attr);
            proof {
                if named {
                    assert(new_attrs@.drop_last().drop_last() =~= prev);
                } else {
                    assert(new_attrs@.drop_last() =~= prev);
                }
            }
            k = k + 1;
        }
        assert(before.take(k as int) =~= before);
        element.opening.attrs = new_attrs;
    }

    /// Rewrites the object passed to a `defineMessages` call.
    pub fn process_define_messages(&self, call: &mut JsCallExpr)
        ensures
            define_call_rewritten(self.config, self.filename@, *old(call), *final(call)),
    {
        if call.args.len() > 0 {
            if let JsExpr::Object(_) = &*call.args[0].expr {
                let ghost before = *call;
                let e = crate::rewrite::take_first_arg(call);
                if let JsExpr::Object(mut obj) = e {
                    self.process_object_expression(&mut obj);
                    let ghost o2 = obj;
                    crate::rewrite::put_first_arg(call, JsExpr::Object(obj));
                    assert(crate::rewrite::first_arg_replaced(before, *call, JsExpr::Object(o2))) by {
                        assert(call.args@.skip(1) =~= before.args@.skip(1));
                    }
                }
            }
        }
    }

    /// What the transform makes of one `defineMessages` entry.
    fn rewrite_entry(&self, entry: JsPropOrSpread, prefix: &str) -> (r: JsPropOrSpread)
        ensures
            object_entry_rewritten(entry, r, prefix@, self.config.separator@),
    {
        match entry {
            JsPropOrSpread::Prop(bp) => {
                let prop = *bp;
                match prop {
                    JsProp::KeyValue(kv) => {
                        let JsKeyValueProp { key, value } = kv;
                        let key_sym = match &key {
                            JsPropName::Ident(k) => owned(k.sym.as_str()),
                            _ => return JsPropOrSpread::Prop(Box::new(JsProp::KeyValue(JsKeyValueProp { key, value }))),
                        };
                        let mut id_chars = concat(&chars_of(prefix), &chars_of(self.config.separator.as_str()));
                        push_all(&mut id_chars, &chars_of(key_sym.as_str()));
                        let id = string_of(&id_chars);
                        match *value {
                            JsExpr::Object(value_obj) => {
                                if has_ident_id(&value_obj) {
                                    JsPropOrSpread::Prop(Box::new(JsProp::KeyValue(JsKeyValueProp { key, value: Box::new(JsExpr::Object(value_obj)) })))
                                } else {
                                    let JsObjectLit { span, props } = value_obj;
                                    let mut new_props: Vec<JsPropOrSpread> = Vec::new();
                                    new_props.push(ident_id_entry(id.as_str()));
                                    let mut old_props = props;
                                    new_props.append(&mut old_props);
                                    assert(new_props@.drop_first() =~= props@);
                                    JsPropOrSpread::Prop(Box::new(JsProp::KeyValue(JsKeyValueProp { key, value: Box::new(JsExpr::Object(JsObjectLit { span, props: new_props })) })))
                                }
                            },
                            JsExpr::Lit(JsLit::Str(s)) => {
                                let dm = JsPropOrSpread::Prop(
                                    Box::new(
                                        JsProp::KeyValue(
                                            JsKeyValueProp {
                                                key: JsPropName::Ident(JsIdent { span: dummy_sp(), sym: owned("defaultMessage") }),
                                                value: Box::new(JsExpr::Lit(JsLit::Str(s))),
                                            },
                                        ),
                                    ),
                                );
                                let props = vec![ident_id_entry(id.as_str()), dm];
                                JsPropOrSpread::Prop(Box::new(JsProp::KeyValue(JsKeyValueProp { key, value: Box::new(JsExpr::Object(JsObjectLit { span: dummy_sp(), props })) })))
                            },
                            other => JsPropOrSpread::Prop(Box::new(JsProp::KeyValue(JsKeyValueProp { key, value: Box::new(other) }))),
                        }
                    },
                    other => JsPropOrSpread::Prop(Box::new(other)),
                }
            },
            other => other,
        }
    }

    /// Adds IDs (the path part, the separator and the key) to the entries of a
    /// `defineMessages` object.
    pub fn process_object_expression(&self, obj: &mut JsObjectLit)
        ensures
            final(obj).span == old(obj).span,
            final(obj).props.len() == old(obj).props.len(),
            forall|i: int|
                0 <= i < old(obj).props.len() ==> object_entry_rewritten(
                    #[trigger] old(obj).props@[i],
                    final(obj).props@[i],
                    spec_prefix_with_suffix(self.config, self.filename@, Seq::empty()),
                    self.config.separator@,
                ),
    {
        let prefix = self.get_prefix();
        let mut rest: Vec<JsPropOrSpread> = Vec::new();
        std::mem::swap(&mut rest, &mut obj.props);
        let ghost before = rest@;
        let mut done: Vec<JsPropOrSpread> = Vec::new();
        let mut i: usize = 0;
        let n = rest.len();
        while i < n
            invariant
                n == before.len(),
                i <= n,
                rest@ == before.skip(i as int),
                done.len() == i,
                prefix@ == spec_prefix_with_suffix(self.config, self.filename@, Seq::empty()),
                forall|j: int|
                    0 <= j < i ==> object_entry_rewritten(#[trigger] before[j], done@[j], prefix@, self.config.separator@),
            decreases n - i,
        {
            let e = rest.remove(0);
            assert(e == before[i as int]);
            assert(rest@ =~= before.skip(i + 1));
            let r = self.rewrite_entry(e, prefix.as_str());
            done.push(r);
            i = i + 1;
        }
        obj.props = done;
    }

    /// Inserts the ID of a React Intl component (after its children were visited).
    pub fn visit_mut_jsx_element(&self, element: &mut JsxElement)
        requires
            element_hashable(*old(element)),
        ensures
            match old(element).opening.name {
                JsxElementName::Ident(n) => if n.sym@ == "FormattedMessage"@ || n.sym@ == "FormattedHTMLMessage"@ {
                    match element_id(self.config, self.filename@, *old(element)) {
                        Some((id, span)) => {
                            &&& final(element).span == old(element).span
                            &&& final(element).opening.name == old(element).opening.name
                            &&& ids_before_messages(old(element).opening.attrs@, final(element).opening.attrs@, id, span)
                        },
                        None => *final(element) == *old(element),
                    }
                } else {
                    *final(element) == *old(element)
                },
                _ => *final(element) == *old(element),
            },
    {
        let is_component = match &element.opening.name {
            JsxElementName::Ident(ident) => self.is_react_intl_component(ident.sym.as_str()),
            _ => false,
        };
        if is_component {
            self.process_jsx_element(element);
        }
    }

    /// Rewrites a `defineMessages` call (after its children were visited).
    pub fn visit_mut_call_expr(&self, call: &mut JsCallExpr)
        ensures
            crate::ast_call::callee_ident(*old(call)) == Some("defineMessages"@) ==> define_call_rewritten(
                self.config,
                self.filename@,
                *old(call),
                *final(call),
            ),
            crate::ast_call::callee_ident(*old(call)) != Some("defineMessages"@) ==> *final(call) == *old(call),
    {
        if self.is_define_messages_call(call) {
            self.process_define_messages(call);
        }
    }
}

/// A new `id` property with an identifier key.
fn ident_id_entry(id: &str) -> (r: JsPropOrSpread)
    ensures
        is_ident_id_entry(r, id@),
{
    JsPropOrSpread::Prop(
        Box::new(
            JsProp::KeyValue(
                JsKeyValueProp {
                    key: JsPropName::Ident(JsIdent { span: dummy_sp(), sym: owned("id") }),
                    value: Box::new(JsExpr::Lit(JsLit::Str(JsStr { span: dummy_sp(), value: owned(id) }))),
                },
            ),
        ),
    )
}

/// Whether an object has a property with the identifier key `id`.
fn has_ident_id(obj: &JsObjectLit) -> (r: bool)
    ensures
        r == exists|i: int| 0 <= i < obj.props.len() && #[trigger] is_ident_id_key(obj.props@[i]),
{
    let mut i: usize = 0;
    while i < obj.props.len()
        invariant
            i <= obj.props.len(),
            forall|j: int| 0 <= j < i ==> !is_ident_id_key(#[trigger] obj.props@[j]),
        decreases obj.props.len() - i,
    {
        if let JsPropOrSpread::Prop(prop) = &obj.props[i] {
            if let JsProp::KeyValue(kv) = &**prop {
                if let JsPropName::Ident(ident) = &kv.key {
                    if str_eq(ident.sym.as_str(), "id") {
                        assert(is_ident_id_key(obj.props@[i as int]));
                        return true;
                    }
                }
            }
        }
        i = i + 1;
    }
    false
}

} // verus!

//! A model of the parts of the JavaScript syntax tree that message handling
//! reads or rewrites.
//!
//! Each node keeps what the analysis looks at as plain values. Parts it never
//! looks into are kept as opaque handles (`u64`): the caller that built the
//! model from a real syntax tree uses them to find the original nodes again.
//! A `span` records where a node the model does describe stands in the source:
//! its first byte position and the position after its last byte. Rewritten or
//! new nodes carry `dummy_sp()`.

use vstd::prelude::*;

verus! {

/// Where a node stands in the source: the byte position of its start and the
/// position after its end.
#[derive(Debug, Clone, Copy, PartialEq, Eq, Structural)]
pub struct JsSpan {
    pub lo: u32,
    pub hi: u32,
}

/// The span of a node made by the rewrite.
pub open spec fn spec_dummy_sp() -> JsSpan {
    JsSpan { lo: 0, hi: 0 }
}

/// The span of a node made by the rewrite.
#[verifier::when_used_as_spec(spec_dummy_sp)]
pub fn dummy_sp() -> (r: JsSpan)
    ensures
        r == spec_dummy_sp(),
{
    JsSpan { lo: 0, hi: 0 }
}

/// An identifier.
#[derive(Debug, Clone, PartialEq, Eq)]
pub struct JsIdent {
    pub span: JsSpan,
    pub sym: String,
}

/// A string literal.
#[derive(Debug, Clone, PartialEq, Eq)]
pub struct JsStr {
    pub span: JsSpan,
    pub value: String,
}

#[derive(Debug, Clone, PartialEq, Eq)]
pub enum JsLit {
    Str(JsStr),
    /// A literal of another kind.
    Other(u64),
}

/// A piece of a template literal between its expressions.
#[derive(Debug, Clone, PartialEq, Eq)]
pub struct JsTplElement {
    pub raw: String,
}

/// A template literal: `quasis` around the (opaque) embedded expressions.
#[derive(Debug, Clone, PartialEq, Eq)]
pub struct JsTpl {
    pub span: JsSpan,
    pub exprs: Vec<u64>,
    pub quasis: Vec<JsTplElement>,
}

#[derive(Debug, Clone, PartialEq, Eq)]
pub enum JsMemberProp {
    Ident(JsIdent),
    Other(u64),
}

/// `obj.prop`, with an opaque object.
#[derive(Debug, Clone, PartialEq, Eq)]
pub struct JsMemberExpr {
    pub obj: u64,
    pub prop: JsMemberProp,
}

#[derive(Debug, Clone, PartialEq, Eq)]
pub enum JsPropName {
    Ident(JsIdent),
    Str(JsStr),
    /// A numeric key, as the text of its value.
    Num(String),
    Other(u64),
}

#[derive(Debug)]
pub struct JsKeyValueProp {
    pub key: JsPropName,
    pub value: Box<JsExpr>,
}

#[derive(Debug)]
pub enum JsProp {
    KeyValue(JsKeyValueProp),
    /// A shorthand, method, getter or setter property.
    Other(u64),
}

#[derive(Debug)]
pub enum JsPropOrSpread {
    Prop(Box<JsProp>),
    Spread(u64),
}

/// An object literal.
#[derive(Debug)]
pub struct JsObjectLit {
    pub span: JsSpan,
    pub props: Vec<JsPropOrSpread>,
}

/// An expression.
#[derive(Debug)]
pub enum JsExpr {
    Lit(JsLit),
    Tpl(JsTpl),
    Ident(JsIdent),
    Member(JsMemberExpr),
    /// A call, with its node opaque.
    Call(u64),
    /// A binary expression, with its node opaque.
    Bin(u64),
    Object(JsObjectLit),
    /// An expression of another kind.
    Other(u64),
}

#[derive(Debug)]
pub enum JsCallee {
    Expr(Box<JsExpr>),
    /// `super` or `import`.
    Other(u64),
}

#[derive(Debug)]
pub struct JsExprOrSpread {
    pub spread: bool,
    pub expr: Box<JsExpr>,
}

/// A call expression.
#[derive(Debug)]
pub struct JsCallExpr {
    pub span: JsSpan,
    pub callee: JsCallee,
    pub args: Vec<JsExprOrSpread>,
}

#[derive(Debug, Clone, PartialEq, Eq)]
pub enum JsxElementName {
    Ident(JsIdent),
    /// A member or namespaced name.
    Other(u64),
}

#[derive(Debug, Clone, PartialEq, Eq)]
pub enum JsxAttrName {
    Ident(JsIdent),
    /// A namespaced name.
    Other(u64),
}

#[derive(Debug)]
pub enum JsxExpr {
    Expr(Box<JsExpr>),
    /// `{}`.
    Empty(u64),
}

#[derive(Debug)]
pub struct JsxExprContainer {
    pub expr: JsxExpr,
}

#[derive(Debug)]
pub enum JsxAttrValue {
    Str(JsStr),
    JSXExprContainer(JsxExprContainer),
    /// An element or fragment.
    Other(u64),
}

#[derive(Debug)]
pub struct JsxAttr {
    pub span: JsSpan,
    pub name: JsxAttrName,
    pub value: Option<JsxAttrValue>,
}

#[derive(Debug)]
pub enum JsxAttrOrSpread {
    JSXAttr(JsxAttr),
    Spread(u64),
}

#[derive(Debug)]
pub struct JsxOpeningElement {
    pub name: JsxElementName,
    pub attrs: Vec<JsxAttrOrSpread>,
}

/// A JSX element (its children are visited separately).
#[derive(Debug)]
pub struct JsxElement {
    pub span: JsSpan,
    pub opening: JsxOpeningElement,
}

#[derive(Debug, Clone, PartialEq, Eq)]
pub enum JsModuleExportName {
    Ident(JsIdent),
    Str(JsStr),
}

#[derive(Debug, Clone, PartialEq, Eq)]
pub struct JsImportNamedSpecifier {
    pub local: JsIdent,
    pub imported: Option<JsModuleExportName>,
}

#[derive(Debug, Clone, PartialEq, Eq)]
pub enum JsImportSpecifier {
    Named(JsImportNamedSpecifier),
    Default(JsIdent),
    Namespace(JsIdent),
}

/// An import declaration.
#[derive(Debug, Clone, PartialEq, Eq)]
pub struct JsImportDecl {
    pub src: JsStr,
    pub specifiers: Vec<JsImportSpecifier>,
}

#[derive(Debug, Clone, PartialEq, Eq)]
pub enum JsPat {
    Ident(JsIdent),
    /// A destructuring pattern.
    Other(u64),
}

/// A variable declarator.
#[derive(Debug)]
pub struct JsVarDeclarator {
    pub name: JsPat,
    pub init: Option<Box<JsExpr>>,
}

/// A node of a module that message extraction visits.
#[derive(Debug)]
pub enum JsItem {
    Import(JsImportDecl),
    Element(JsxElement),
    Declarator(JsVarDeclarator),
    Call(JsCallExpr),
}

/// A step of a walk over a module: entering a node (then what is inside it is
/// walked), or leaving the node entered last.
#[derive(Debug)]
pub enum JsEvent {
    Enter(JsItem),
    Leave,
}

/// A parsed module, as the nodes that message extraction visits, in visiting
/// order: an import or a declarator where the walk enters it, an element or a
/// call where the walk leaves it.
#[derive(Debug)]
pub struct JsModule {
    pub items: Vec<JsItem>,
}


} // verus!

verus! {

/// A copy of a string.
fn copy_string(s: &String) -> (r: String)
    ensures
        r == *s,
{
    s.clone()
}

/// A copy of a string literal.
pub fn copy_str(s: &JsStr) -> (r: JsStr)
    ensures
        r == *s,
{
    JsStr { span: s.span, value: copy_string(&s.value) }
}

/// A copy of an identifier.
pub fn copy_ident(i: &JsIdent) -> (r: JsIdent)
    ensures
        r == *i,
{
    JsIdent { span: i.span, sym: copy_string(&i.sym) }
}

/// A copy of a property key.
pub fn copy_prop_name(k: &JsPropName) -> (r: JsPropName)
    ensures
        r == *k,
{
    match k {
        JsPropName::Ident(i) => JsPropName::Ident(copy_ident(i)),
        JsPropName::Str(s) => JsPropName::Str(copy_str(s)),
        JsPropName::Num(n) => JsPropName::Num(copy_string(n)),
        JsPropName::Other(h) => JsPropName::Other(*h),
    }
}

/// Two template literals hold the same parts.
pub open spec fn same_tpl(a: JsTpl, b: JsTpl) -> bool {
    a.span == b.span && a.exprs@ == b.exprs@ && a.quasis@ == b.quasis@
}

/// Two expressions are the same tree.
pub open spec fn same_expr(a: JsExpr, b: JsExpr) -> bool
    decreases a,
{
    match a {
        JsExpr::Tpl(x) => match b {
            JsExpr::Tpl(y) => same_tpl(x, y),
            _ => false,
        },
        JsExpr::Object(x) => match b {
            JsExpr::Object(y) => x.span == y.span && x.props@.len() == y.props@.len() && forall|i: int|
                0 <= i < x.props@.len() ==> same_entry(#[trigger] x.props@[i], y.props@[i]),
            _ => false,
        },
        _ => a == b,
    }
}

/// Two properties are the same tree.
pub open spec fn same_prop(a: JsProp, b: JsProp) -> bool
    decreases a,
{
    match a {
        JsProp::KeyValue(x) => match b {
            JsProp::KeyValue(y) => x.key == y.key && same_expr(*x.value, *y.value),
            _ => false,
        },
        JsProp::Other(h) => b == JsProp::Other(h),
    }
}

/// Two entries of an object literal are the same tree.
pub open spec fn same_entry(a: JsPropOrSpread, b: JsPropOrSpread) -> bool
    decreases a,
{
    match a {
        JsPropOrSpread::Prop(x) => match b {
            JsPropOrSpread::Prop(y) => same_prop(*x, *y),
            _ => false,
        },
        JsPropOrSpread::Spread(h) => b == JsPropOrSpread::Spread(h),
    }
}

/// Two lists of object entries are the same trees, one by one.
pub open spec fn same_props(a: Seq<JsPropOrSpread>, b: Seq<JsPropOrSpread>) -> bool {
    a.len() == b.len() && forall|i: int| 0 <= i < a.len() ==> same_entry(#[trigger] a[i], b[i])
}

/// Two object literals are the same tree.
pub open spec fn same_object(a: JsObjectLit, b: JsObjectLit) -> bool {
    a.span == b.span && same_props(a.props@, b.props@)
}

} // verus!

verus! {

/// A copy of a template literal.
pub fn copy_tpl(t: &JsTpl) -> (r: JsTpl)
    ensures
        same_tpl(*t, r),
{
    let mut exprs: Vec<u64> = Vec::new();
    let mut i: usize = 0;
    while i < t.exprs.len()
        invariant
            i <= t.exprs.len(),
            exprs@ == t.exprs@.take(i as int),
        decreases t.exprs.len() - i,
    {
        exprs.push(t.exprs[i]);
        i = i + 1;
        assert(exprs@ =~= t.exprs@.take(i as int));
    }
    assert(exprs@ =~= t.exprs@);
    let mut quasis: Vec<JsTplElement> = Vec::new();
    let mut j: usize = 0;
    while j < t.quasis.len()
        invariant
            j <= t.quasis.len(),
            quasis@ == t.quasis@.take(j as int),
        decreases t.quasis.len() - j,
    {
        quasis.push(JsTplElement { raw: copy_string(&t.quasis[j].raw) });
        j = j + 1;
        assert(quasis@ =~= t.quasis@.take(j as int));
    }
    assert(quasis@ =~= t.quasis@);
    JsTpl { span: t.span, exprs, quasis }
}

/// A copy of an expression.
pub fn copy_expr(e: &JsExpr) -> (r: JsExpr)
    ensures
        same_expr(*e, r),
    decreases e,
{
    match e {
        JsExpr::Lit(JsLit::Str(s)) => JsExpr::Lit(JsLit::Str(copy_str(s))),
        JsExpr::Lit(JsLit::Other(h)) => JsExpr::Lit(JsLit::Other(*h)),
        JsExpr::Tpl(t) => JsExpr::Tpl(copy_tpl(t)),
        JsExpr::Ident(i) => JsExpr::Ident(copy_ident(i)),
        JsExpr::Member(m) => JsExpr::Member(
            JsMemberExpr {
                obj: m.obj,
                prop: match &m.prop {
                    JsMemberProp::Ident(i) => JsMemberProp::Ident(copy_ident(i)),
                    JsMemberProp::Other(h) => JsMemberProp::Other(*h),
                },
            },
        ),
        JsExpr::Call(h) => JsExpr::Call(*h),
        JsExpr::Bin(h) => JsExpr::Bin(*h),
        JsExpr::Object(o) => JsExpr::Object(copy_object(o)),
        JsExpr::Other(h) => JsExpr::Other(*h),
    }
}

/// A copy of an object entry.
pub fn copy_entry(p: &JsPropOrSpread) -> (r: JsPropOrSpread)
    ensures
        same_entry(*p, r),
    decreases p,
{
    match p {
        JsPropOrSpread::Prop(prop) => JsPropOrSpread::Prop(
            Box::new(
                match &**prop {
                    JsProp::KeyValue(kv) => JsProp::KeyValue(
                        JsKeyValueProp { key: copy_prop_name(&kv.key), value: Box::new(copy_expr(&kv.value)) },
                    ),
                    JsProp::Other(h) => JsProp::Other(*h),
                },
            ),
        ),
        JsPropOrSpread::Spread(h) => JsPropOrSpread::Spread(*h),
    }
}

/// A copy of an object literal.
pub fn copy_object(o: &JsObjectLit) -> (r: JsObjectLit)
    ensures
        same_object(*o, r),
    decreases o,
{
    let mut props: Vec<JsPropOrSpread> = Vec::new();
    let mut i: usize = 0;
    while i < o.props.len()
        invariant
            i <= o.props.len(),
            same_props(o.props@.take(i as int), props@),
        decreases o.props.len() - i,
    {
        assert(decreases_to!(o => o.props@[i as int]));
        let p = copy_entry(&o.props[i]);
        props.push(p);
        i = i + 1;
    }
    assert(o.props@.take(i as int) =~= o.props@);
    JsObjectLit { span: o.span, props }
}

} // verus!

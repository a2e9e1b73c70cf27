//! Parsing source text with SWC into the syntax model.
//!
//! `swc_core`'s parser builds the syntax tree and SWC's visitor walks it; the
//! trusted functions here convert each node of the kinds the model describes
//! (imports, JSX elements, variable declarators and calls), one for one, and
//! record where the walk enters and leaves it. Parts the model does not
//! describe become opaque handles: the byte position where they start. The
//! order in which extraction visits the nodes is computed from that record by
//! verified code.

use vstd::prelude::*;
use swc_core::common::{BytePos, Spanned};
use swc_core::ecma::ast as swc;
use swc_core::ecma::parser::{EsSyntax, Parser, StringInput, TsSyntax};
use swc_core::ecma::visit::{Visit, VisitWith};
use crate::extractor::SyntaxKind;
use crate::hashing::hashable;
use crate::syntax::{
    JsEvent, JsSpan, JsCallExpr, JsCallee, JsExpr, JsExprOrSpread, JsIdent, JsImportDecl, JsImportNamedSpecifier,
    JsImportSpecifier, JsItem, JsKeyValueProp, JsLit, JsMemberExpr, JsMemberProp, JsModule,
    JsModuleExportName, JsObjectLit, JsPat, JsProp, JsPropName, JsPropOrSpread, JsStr, JsTpl,
    JsTplElement, JsVarDeclarator, JsxAttr, JsxAttrName, JsxAttrOrSpread, JsxAttrValue, JsxElement,
    JsxElementName, JsxExpr, JsxExprContainer, JsxOpeningElement,
};

verus! {

#[verifier::external_type_specification]
#[verifier::external_body]
pub struct ExSwcModule(swc_core::ecma::ast::Module);

#[verifier::external_type_specification]
#[verifier::external_body]
pub struct ExSwcSpan(swc_core::common::Span);

#[verifier::external_type_specification]
#[verifier::external_body]
pub struct ExSwcSyntax(swc_core::ecma::parser::Syntax);

#[verifier::external_type_specification]
#[verifier::external_body]
pub struct ExSwcIdent(swc_core::ecma::ast::Ident);

#[verifier::external_type_specification]
#[verifier::external_body]
pub struct ExSwcIdentName(swc_core::ecma::ast::IdentName);

#[verifier::external_type_specification]
#[verifier::external_body]
pub struct ExSwcStr(swc_core::ecma::ast::Str);

#[verifier::external_type_specification]
#[verifier::external_body]
pub struct ExSwcExpr(swc_core::ecma::ast::Expr);

#[verifier::external_type_specification]
#[verifier::external_body]
pub struct ExSwcTpl(swc_core::ecma::ast::Tpl);

#[verifier::external_type_specification]
#[verifier::external_body]
pub struct ExSwcMemberProp(swc_core::ecma::ast::MemberProp);

#[verifier::external_type_specification]
#[verifier::external_body]
pub struct ExSwcObjectLit(swc_core::ecma::ast::ObjectLit);

#[verifier::external_type_specification]
#[verifier::external_body]
pub struct ExSwcPropOrSpread(swc_core::ecma::ast::PropOrSpread);

#[verifier::external_type_specification]
#[verifier::external_body]
pub struct ExSwcPropName(swc_core::ecma::ast::PropName);

#[verifier::external_type_specification]
#[verifier::external_body]
pub struct ExSwcCallExpr(swc_core::ecma::ast::CallExpr);

#[verifier::external_type_specification]
#[verifier::external_body]
pub struct ExSwcCallee(swc_core::ecma::ast::Callee);

#[verifier::external_type_specification]
#[verifier::external_body]
pub struct ExSwcJSXElement(swc_core::ecma::ast::JSXElement);

#[verifier::external_type_specification]
#[verifier::external_body]
pub struct ExSwcJSXAttrOrSpread(swc_core::ecma::ast::JSXAttrOrSpread);

#[verifier::external_type_specification]
#[verifier::external_body]
pub struct ExSwcJSXAttrValue(swc_core::ecma::ast::JSXAttrValue);

#[verifier::external_type_specification]
#[verifier::external_body]
pub struct ExSwcImportDecl(swc_core::ecma::ast::ImportDecl);

#[verifier::external_type_specification]
#[verifier::external_body]
pub struct ExSwcImportSpecifier(swc_core::ecma::ast::ImportSpecifier);

#[verifier::external_type_specification]
#[verifier::external_body]
pub struct ExSwcModuleExportName(swc_core::ecma::ast::ModuleExportName);

#[verifier::external_type_specification]
#[verifier::external_body]
pub struct ExSwcVarDeclarator(swc_core::ecma::ast::VarDeclarator);

/// SWC's walk over the module that `swc_core`'s parser builds from `code` in
/// the given dialect: where it enters and leaves each node of the kinds the
/// model describes, in order; or the parser's error, as its pretty-printed
/// debug text.
pub uninterp spec fn parsed_events(code: Seq<char>, syntax: SyntaxKind) -> Result<Seq<JsEvent>, Seq<char>>;

/// The view of a walk record: the events, or the error text.
pub open spec fn events_view(r: Result<Vec<JsEvent>, String>) -> Result<Seq<JsEvent>, Seq<char>> {
    match r {
        Ok(v) => Ok(v@),
        Err(e) => Err(e@),
    }
}

/// Calls `swc_core::ecma::parser::Parser::parse_module` on `code`, read from
/// byte position 0 with the parser's default options for the dialect, and
/// walks the module with `swc_core::ecma::visit::Visit`, recording where the
/// walk enters and leaves each import, JSX element, variable declarator and
/// call.
///
/// Trusted: the result is `parsed_events(code, syntax)`: parser and walk are a
/// function of the text and the dialect alone. The end position is `code`'s
/// length as a `u32`, so longer texts are excluded.
#[verifier::external_body]
pub fn parse_events(code: &str, syntax: SyntaxKind) -> (r: Result<Vec<JsEvent>, String>)
    requires
        hashable(code@),
    ensures
        events_view(r) == parsed_events(code@, syntax),
{
    let input = StringInput::new(code, BytePos(0), BytePos(code.len() as u32));
    match Parser::new(syntax_of(syntax), input, None).parse_module() {
        Ok(m) => Ok(events_of(&m)),
        Err(e) => Err(format!("{:#?}", e)),
    }
}

/// What the walk has after each event: the nodes visited so far, and for
/// each node it is inside, the node that is visited on leaving it.
pub open spec fn walk_state(events: Seq<JsEvent>) -> (Seq<JsItem>, Seq<Option<JsItem>>)
    decreases events.len(),
{
    if events.len() == 0 {
        (Seq::empty(), Seq::empty())
    } else {
        let (visited, open) = walk_state(events.drop_last());
        match events.last() {
            JsEvent::Enter(item) => match item {
                JsItem::Import(_) | JsItem::Declarator(_) => (visited.push(item), open.push(None)),
                _ => (visited, open.push(Some(item))),
            },
            JsEvent::Leave => if open.len() == 0 {
                (visited, open)
            } else {
                match open.last() {
                    Some(item) => (visited.push(item), open.drop_last()),
                    None => (visited, open.drop_last()),
                }
            },
        }
    }
}

/// The nodes in the order extraction visits them: an import or a variable
/// declarator when the walk enters it (before what its initializer holds), a
/// JSX element or a call when the walk leaves it (after what is inside it).
pub open spec fn visit_order(events: Seq<JsEvent>) -> Seq<JsItem> {
    walk_state(events).0
}

/// The nodes that extraction visits in the module parsed from `code`, in
/// visiting order; or the parser's error.
pub open spec fn parsed_module(code: Seq<char>, syntax: SyntaxKind) -> Result<Seq<JsItem>, Seq<char>> {
    match parsed_events(code, syntax) {
        Ok(events) => Ok(visit_order(events)),
        Err(e) => Err(e),
    }
}

/// The view of a parse result: the visited nodes, or the error text.
pub open spec fn parse_view(r: Result<JsModule, String>) -> Result<Seq<JsItem>, Seq<char>> {
    match r {
        Ok(m) => Ok(m.items@),
        Err(e) => Err(e@),
    }
}

/// Puts the nodes of a walk record in the order extraction visits them.
pub fn visit_order_exec(events: Vec<JsEvent>) -> (r: Vec<JsItem>)
    ensures
        r@ == visit_order(events@),
{
    let ghost all = events@;
    let n = events.len();
    let mut events = events;
    let mut rev: Vec<JsEvent> = Vec::new();
    while events.len() > 0
        invariant
            all.len() == n,
            events.len() + rev.len() == n,
            events@ == all.take(events.len() as int),
            forall|j: int| 0 <= j < rev.len() ==> #[trigger] rev@[j] == all[n - 1 - j],
        decreases events.len(),
    {
        let e = events.pop().unwrap();
        rev.push(e);
    }
    let mut visited: Vec<JsItem> = Vec::new();
    let mut open: Vec<Option<JsItem>> = Vec::new();
    let mut k: usize = 0;
    assert(all.take(0) =~= Seq::<JsEvent>::empty());
    while rev.len() > 0
        invariant
            all.len() == n,
            k + rev.len() == n,
            forall|j: int| 0 <= j < rev.len() ==> #[trigger] rev@[j] == all[n - 1 - j],
            (visited@, open@) == walk_state(all.take(k as int)),
        decreases rev.len(),
    {
        let e = rev.pop().unwrap();
        assert(e == all[k as int]);
        assert(all.take(k + 1).drop_last() =~= all.take(k as int));
        assert(all.take(k + 1).last() == all[k as int]);
        match e {
            JsEvent::Enter(item) => match item {
                JsItem::Import(_) | JsItem::Declarator(_) => {
                    visited.push(item);
                    open.push(None);
                },
                _ => {
                    open.push(Some(item));
                },
            },
            JsEvent::Leave => {
                if open.len() > 0 {
                    let ghost before = open@;
                    let top = open.pop().unwrap();
                    assert(open@ =~= before.drop_last());
                    if let Some(item) = top {
                        visited.push(item);
                    }
                }
            },
        }
        k = k + 1;
    }
    assert(all.take(n as int) =~= all);
    visited
}

/// Parses `code` in the given dialect and lists the nodes that extraction
/// visits, in visiting order; or gives the parser's error.
pub fn parse_module(code: &str, syntax: SyntaxKind) -> (r: Result<JsModule, String>)
    requires
        hashable(code@),
    ensures
        parse_view(r) == parsed_module(code@, syntax),
{
    match parse_events(code, syntax) {
        Ok(events) => Ok(JsModule { items: visit_order_exec(events) }),
        Err(e) => Err(e),
    }
}

/// The parser settings of a dialect (the other settings at their defaults).
#[verifier::external_body]
fn syntax_of(kind: SyntaxKind) -> swc_core::ecma::parser::Syntax {
    match kind {
        SyntaxKind::Typescript { tsx } => swc_core::ecma::parser::Syntax::Typescript(TsSyntax { tsx, ..Default::default() }),
        SyntaxKind::Es { jsx } => swc_core::ecma::parser::Syntax::Es(EsSyntax { jsx, ..Default::default() }),
    }
}

/// Records SWC's walk over a module.
struct EventRecorder {
    events: Vec<JsEvent>,
}

impl Visit for EventRecorder {
    #[verifier::external_body]
    fn visit_import_decl(&mut self, d: &swc_core::ecma::ast::ImportDecl) {
        self.events.push(JsEvent::Enter(JsItem::Import(import_of(d))));
        d.visit_children_with(self);
        self.events.push(JsEvent::Leave);
    }

    #[verifier::external_body]
    fn visit_jsx_element(&mut self, e: &swc_core::ecma::ast::JSXElement) {
        self.events.push(JsEvent::Enter(JsItem::Element(element_of(e))));
        e.visit_children_with(self);
        self.events.push(JsEvent::Leave);
    }

    #[verifier::external_body]
    fn visit_var_declarator(&mut self, d: &swc_core::ecma::ast::VarDeclarator) {
        self.events.push(JsEvent::Enter(JsItem::Declarator(declarator_of(d))));
        d.visit_children_with(self);
        self.events.push(JsEvent::Leave);
    }

    #[verifier::external_body]
    fn visit_call_expr(&mut self, c: &swc_core::ecma::ast::CallExpr) {
        self.events.push(JsEvent::Enter(JsItem::Call(call_of(c))));
        c.visit_children_with(self);
        self.events.push(JsEvent::Leave);
    }
}

/// Walks a module with SWC's visitor and returns the record.
#[verifier::external_body]
fn events_of(m: &swc_core::ecma::ast::Module) -> Vec<JsEvent> {
    let mut recorder = EventRecorder { events: Vec::new() };
    m.visit_with(&mut recorder);
    recorder.events
}

/// A span as the model writes it.
#[verifier::external_body]
fn span_code(s: swc_core::common::Span) -> JsSpan {
    JsSpan { lo: s.lo.0, hi: s.hi.0 }
}

/// The handle of a node the model does not describe: where it starts.
#[verifier::external_body]
fn handle(s: swc_core::common::Span) -> u64 {
    s.lo.0 as u64
}

#[verifier::external_body]
fn ident_of(i: &swc_core::ecma::ast::Ident) -> JsIdent {
    JsIdent { span: span_code(i.span), sym: i.sym.to_string() }
}

#[verifier::external_body]
fn ident_name_of(i: &swc_core::ecma::ast::IdentName) -> JsIdent {
    JsIdent { span: span_code(i.span), sym: i.sym.to_string() }
}

#[verifier::external_body]
fn str_of(s: &swc_core::ecma::ast::Str) -> JsStr {
    JsStr { span: span_code(s.span), value: s.value.to_string_lossy().into_owned() }
}

#[verifier::external_body]
fn expr_of(e: &swc_core::ecma::ast::Expr) -> JsExpr {
    match e {
        swc::Expr::Lit(swc::Lit::Str(s)) => JsExpr::Lit(JsLit::Str(str_of(s))),
        swc::Expr::Lit(l) => JsExpr::Lit(JsLit::Other(handle(l.span()))),
        swc::Expr::Tpl(t) => JsExpr::Tpl(tpl_of(t)),
        swc::Expr::Ident(i) => JsExpr::Ident(ident_of(i)),
        swc::Expr::Object(o) => JsExpr::Object(object_of(o)),
        other => other_expr_of(other),
    }
}

#[verifier::external_body]
fn other_expr_of(e: &swc_core::ecma::ast::Expr) -> JsExpr {
    match e {
        swc::Expr::Member(m) => JsExpr::Member(JsMemberExpr { obj: handle(m.obj.span()), prop: member_prop_of(&m.prop) }),
        swc::Expr::Call(c) => JsExpr::Call(handle(c.span)),
        swc::Expr::Bin(b) => JsExpr::Bin(handle(b.span)),
        other => JsExpr::Other(handle(other.span())),
    }
}

#[verifier::external_body]
fn member_prop_of(p: &swc_core::ecma::ast::MemberProp) -> JsMemberProp {
    match p {
        swc::MemberProp::Ident(i) => JsMemberProp::Ident(ident_name_of(i)),
        other => JsMemberProp::Other(handle(other.span())),
    }
}

#[verifier::external_body]
fn tpl_of(t: &swc_core::ecma::ast::Tpl) -> JsTpl {
    JsTpl {
        span: span_code(t.span),
        exprs: t.exprs.iter().map(|e| handle(e.span())).collect(),
        quasis: t.quasis.iter().map(|q| JsTplElement { raw: q.raw.to_string() }).collect(),
    }
}

#[verifier::external_body]
fn object_of(o: &swc_core::ecma::ast::ObjectLit) -> JsObjectLit {
    JsObjectLit { span: span_code(o.span), props: o.props.iter().map(prop_of).collect() }
}

#[verifier::external_body]
fn prop_of(p: &swc_core::ecma::ast::PropOrSpread) -> JsPropOrSpread {
    match p {
        swc::PropOrSpread::Prop(b) => JsPropOrSpread::Prop(Box::new(match &**b {
            swc::Prop::KeyValue(kv) => JsProp::KeyValue(JsKeyValueProp { key: key_of(&kv.key), value: Box::new(expr_of(&kv.value)) }),
            other => JsProp::Other(handle(other.span())),
        })),
        swc::PropOrSpread::Spread(s) => JsPropOrSpread::Spread(handle(s.span())),
    }
}

#[verifier::external_body]
fn key_of(k: &swc_core::ecma::ast::PropName) -> JsPropName {
    match k {
        swc::PropName::Ident(i) => JsPropName::Ident(ident_name_of(i)),
        swc::PropName::Str(s) => JsPropName::Str(str_of(s)),
        swc::PropName::Num(n) => JsPropName::Num(n.value.to_string()),
        other => JsPropName::Other(handle(other.span())),
    }
}

#[verifier::external_body]
fn callee_of(c: &swc_core::ecma::ast::Callee) -> JsCallee {
    match c {
        swc::Callee::Expr(e) => JsCallee::Expr(Box::new(expr_of(e))),
        other => JsCallee::Other(handle(other.span())),
    }
}

#[verifier::external_body]
fn call_of(c: &swc_core::ecma::ast::CallExpr) -> JsCallExpr {
    JsCallExpr {
        span: span_code(c.span),
        callee: callee_of(&c.callee),
        args: c.args.iter().map(|a| JsExprOrSpread { spread: a.spread.is_some(), expr: Box::new(expr_of(&a.expr)) }).collect(),
    }
}

#[verifier::external_body]
fn element_of(e: &swc_core::ecma::ast::JSXElement) -> JsxElement {
    let name = match &e.opening.name {
        swc::JSXElementName::Ident(i) => JsxElementName::Ident(ident_of(i)),
        other => JsxElementName::Other(handle(other.span())),
    };
    JsxElement { span: span_code(e.span), opening: JsxOpeningElement { name, attrs: e.opening.attrs.iter().map(attr_of).collect() } }
}

#[verifier::external_body]
fn attr_of(a: &swc_core::ecma::ast::JSXAttrOrSpread) -> JsxAttrOrSpread {
    match a {
        swc::JSXAttrOrSpread::JSXAttr(x) => JsxAttrOrSpread::JSXAttr(JsxAttr {
            span: span_code(x.span),
            name: match &x.name {
                swc::JSXAttrName::Ident(i) => JsxAttrName::Ident(ident_name_of(i)),
                other => JsxAttrName::Other(handle(other.span())),
            },
            value: x.value.as_ref().map(attr_value_of),
        }),
        swc::JSXAttrOrSpread::SpreadElement(s) => JsxAttrOrSpread::Spread(handle(s.span())),
    }
}

#[verifier::external_body]
fn attr_value_of(v: &swc_core::ecma::ast::JSXAttrValue) -> JsxAttrValue {
    match v {
        swc::JSXAttrValue::Str(s) => JsxAttrValue::Str(str_of(s)),
        swc::JSXAttrValue::JSXExprContainer(c) => JsxAttrValue::JSXExprContainer(JsxExprContainer {
            expr: match &c.expr {
                swc::JSXExpr::Expr(e) => JsxExpr::Expr(Box::new(expr_of(e))),
                swc::JSXExpr::JSXEmptyExpr(x) => JsxExpr::Empty(handle(x.span)),
            },
        }),
        other => JsxAttrValue::Other(handle(other.span())),
    }
}

#[verifier::external_body]
fn import_of(d: &swc_core::ecma::ast::ImportDecl) -> JsImportDecl {
    JsImportDecl { src: str_of(&d.src), specifiers: d.specifiers.iter().map(specifier_of).collect() }
}

#[verifier::external_body]
fn specifier_of(s: &swc_core::ecma::ast::ImportSpecifier) -> JsImportSpecifier {
    match s {
        swc::ImportSpecifier::Named(n) => JsImportSpecifier::Named(JsImportNamedSpecifier {
            local: ident_of(&n.local),
            imported: n.imported.as_ref().map(export_name_of),
        }),
        swc::ImportSpecifier::Default(d) => JsImportSpecifier::Default(ident_of(&d.local)),
        swc::ImportSpecifier::Namespace(n) => JsImportSpecifier::Namespace(ident_of(&n.local)),
    }
}

#[verifier::external_body]
fn export_name_of(n: &swc_core::ecma::ast::ModuleExportName) -> JsModuleExportName {
    match n {
        swc::ModuleExportName::Ident(i) => JsModuleExportName::Ident(ident_of(i)),
        swc::ModuleExportName::Str(s) => JsModuleExportName::Str(str_of(s)),
    }
}

#[verifier::external_body]
fn declarator_of(d: &swc_core::ecma::ast::VarDeclarator) -> JsVarDeclarator {
    JsVarDeclarator {
        name: match &d.name {
            swc::Pat::Ident(b) => JsPat::Ident(ident_of(&b.id)),
            other => JsPat::Other(handle(other.span())),
        },
        init: d.init.as_ref().map(|e| Box::new(expr_of(e))),
    }
}

} // verus!

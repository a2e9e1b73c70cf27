//! Variables initialized with object literals, so that a call that passes a
//! variable can be read as if it passed the object.

use vstd::prelude::*;
use crate::syntax::{JsExpr, JsObjectLit, JsPat, JsVarDeclarator};
use crate::text::str_eq;
use crate::types::CoreState;

verus! {

/// Something that resolves variable names to the object literals they were
/// initialized with.
pub trait VarCollector {
    /// The object that `name` was last initialized with.
    spec fn collected_object(&self, name: Seq<char>) -> Option<JsObjectLit>;

    /// The object that `name` was last initialized with.
    fn get_object(&self, name: &str) -> (r: Option<&JsObjectLit>)
        ensures
            r matches Some(o) ==> self.collected_object(name@) == Some(*o),
            r is None ==> self.collected_object(name@) is None,
    ;
}

/// The last object recorded for `name`.
pub open spec fn object_lookup(entries: Seq<(Seq<char>, JsObjectLit)>, name: Seq<char>) -> Option<JsObjectLit>
    decreases entries.len(),
{
    if entries.len() == 0 {
        None
    } else if entries.last().0 == name {
        Some(entries.last().1)
    } else {
        object_lookup(entries.drop_last(), name)
    }
}

/// The views of the recorded declarations.
pub open spec fn declaration_list(v: Seq<(String, JsObjectLit)>) -> Seq<(Seq<char>, JsObjectLit)> {
    v.map_values(|p: (String, JsObjectLit)| (p.0@, p.1))
}

/// The variable a declarator names and the object it is initialized with,
/// when it is a plain name initialized with an object literal.
pub open spec fn declared_object(declarator: JsVarDeclarator) -> Option<(Seq<char>, JsObjectLit)> {
    match declarator.name {
        JsPat::Ident(ident) => match declarator.init {
            Some(init) => match *init {
                JsExpr::Object(obj) => Some((ident.sym@, obj)),
                _ => None,
            },
            None => None,
        },
        _ => None,
    }
}

/// Collects variable declarations initialized with object literals; a later
/// declaration of the same name replaces an earlier one.
pub struct VarVisitor<'a> {
    pub state: &'a CoreState,
    pub declarations: Vec<(String, JsObjectLit)>,
}

impl<'a> VarVisitor<'a> {
    /// The declarations recorded so far, oldest first.
    pub open spec fn entries(&self) -> Seq<(Seq<char>, JsObjectLit)> {
        declaration_list(self.declarations@)
    }

    pub fn new(state: &'a CoreState) -> (r: Self)
        ensures
            r.state == state,
            r.entries() == Seq::<(Seq<char>, JsObjectLit)>::empty(),
    {
        let r = VarVisitor { state, declarations: Vec::new() };
        assert(r.entries() =~= Seq::<(Seq<char>, JsObjectLit)>::empty());
        r
    }

    /// Records a declaration if it initializes a plain name with an object
    /// literal.
    pub fn track_declarator(&mut self, declarator: JsVarDeclarator)
        ensures
            final(self).state == old(self).state,
            final(self).entries() == match declared_object(declarator) {
                Some(entry) => old(self).entries().push(entry),
                None => old(self).entries(),
            },
    {
        record_declarator(&mut self.declarations, declarator);
    }

    /// Records a declaration (see `track_declarator`).
    pub fn visit_var_declarator(&mut self, declarator: JsVarDeclarator)
        ensures
            final(self).state == old(self).state,
            final(self).entries() == match declared_object(declarator) {
                Some(entry) => old(self).entries().push(entry),
                None => old(self).entries(),
            },
    {
        self.track_declarator(declarator);
    }
}

impl<'a> VarCollector for VarVisitor<'a> {
    open spec fn collected_object(&self, name: Seq<char>) -> Option<JsObjectLit> {
        object_lookup(self.entries(), name)
    }

    fn get_object(&self, name: &str) -> (r: Option<&JsObjectLit>) {
        find_declared(&self.declarations, name)
    }
}

/// The object last recorded for `name`.
pub fn find_declared<'a>(declarations: &'a Vec<(String, JsObjectLit)>, name: &str) -> (r: Option<&'a JsObjectLit>)
    ensures
        r matches Some(o) ==> object_lookup(declaration_list(declarations@), name@) == Some(*o),
        r is None ==> object_lookup(declaration_list(declarations@), name@) is None,
{
    let ghost entries = declaration_list(declarations@);
    let mut n: usize = declarations.len();
    assert(entries.take(n as int) =~= entries);
    while n > 0
        invariant
            n <= declarations.len(),
            entries == declaration_list(declarations@),
            object_lookup(entries, name@) == object_lookup(entries.take(n as int), name@),
        decreases n,
    {
        assert(entries.take(n as int).drop_last() =~= entries.take(n - 1));
        if str_eq(declarations[n - 1].0.as_str(), name) {
            return Some(&declarations[n - 1].1);
        }
        n = n - 1;
    }
    None
}

/// Records a declaration if it initializes a plain name with an object literal.
pub fn record_declarator(declarations: &mut Vec<(String, JsObjectLit)>, declarator: JsVarDeclarator)
    ensures
        declaration_list(final(declarations)@) == match declared_object(declarator) {
            Some(entry) => declaration_list(old(declarations)@).push(entry),
            None => declaration_list(old(declarations)@),
        },
{
    let ghost d = declarator;
    if let JsPat::Ident(ident) = declarator.name {
        if let Some(init) = declarator.init {
            if let JsExpr::Object(obj) = *init {
                declarations.push((ident.sym, obj));
                assert(declaration_list(declarations@) =~= declaration_list(old(declarations)@).push(declared_object(d).unwrap()));
            }
        }
    }
}

} // verus!

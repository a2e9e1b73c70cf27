//! Which names a module imports from the React Intl module.

use vstd::prelude::*;
use crate::names::{AliasMap, NameSet};
use crate::syntax::{JsImportDecl, JsImportSpecifier, JsModuleExportName};
use crate::text::{chars_of, concat, chars1, owned, starts_with, starts_with_exec, str_eq};
use crate::types::CoreState;

verus! {

/// Something that knows the names imported from the React Intl module and the
/// aliases among them.
pub trait ImportCollector {
    /// The imported names (original and local).
    spec fn collected_names(&self) -> Set<Seq<char>>;

    /// The local aliases of imported names.
    spec fn collected_aliases(&self) -> AliasMap;

    fn get_imported_names(&self) -> (r: &NameSet)
        ensures
            r@ == self.collected_names(),
    ;

    fn get_alias_map(&self) -> (r: &AliasMap)
        ensures
            *r == self.collected_aliases(),
    ;
}

/// Collects the names imported from the React Intl module, and their aliases.
pub struct ImportVisitor<'a> {
    pub state: &'a CoreState,
    pub imported_names: NameSet,
    pub alias_map: AliasMap,
}

impl<'a> ImportCollector for ImportVisitor<'a> {
    open spec fn collected_names(&self) -> Set<Seq<char>> {
        self.imported_names@
    }

    open spec fn collected_aliases(&self) -> AliasMap {
        self.alias_map
    }

    fn get_imported_names(&self) -> (r: &NameSet) {
        &self.imported_names
    }

    fn get_alias_map(&self) -> (r: &AliasMap) {
        &self.alias_map
    }
}

/// The name `default`.
pub open spec fn default_name() -> Seq<char> {
    seq!['d', 'e', 'f', 'a', 'u', 'l', 't']
}

/// The imported name a named specifier refers to.
pub open spec fn export_name(name: JsModuleExportName) -> Seq<char> {
    match name {
        JsModuleExportName::Ident(i) => i.sym@,
        JsModuleExportName::Str(s) => s.value@,
    }
}

/// The names one specifier contributes: the imported and the local name.
pub open spec fn specifier_names(spec: JsImportSpecifier) -> Seq<Seq<char>> {
    match spec {
        JsImportSpecifier::Named(n) => match n.imported {
            Some(imported) => seq![export_name(imported), n.local.sym@],
            None => seq![n.local.sym@],
        },
        JsImportSpecifier::Default(local) => seq![default_name(), local.sym@],
        JsImportSpecifier::Namespace(local) => seq![local.sym@],
    }
}

/// The alias one specifier contributes: `import { a as b }` maps `b` to `a`.
pub open spec fn specifier_aliases(spec: JsImportSpecifier) -> Seq<(Seq<char>, Seq<char>)> {
    match spec {
        JsImportSpecifier::Named(n) => match n.imported {
            Some(imported) => if export_name(imported) != n.local.sym@ {
                seq![(n.local.sym@, export_name(imported))]
            } else {
                Seq::empty()
            },
            None => Seq::empty(),
        },
        _ => Seq::empty(),
    }
}

/// The names the specifiers contribute, in order.
pub open spec fn names_of(specs: Seq<JsImportSpecifier>) -> Seq<Seq<char>>
    decreases specs.len(),
{
    if specs.len() == 0 {
        Seq::empty()
    } else {
        names_of(specs.drop_last()) + specifier_names(specs.last())
    }
}

/// The aliases the specifiers contribute, in order.
pub open spec fn aliases_of(specs: Seq<JsImportSpecifier>) -> Seq<(Seq<char>, Seq<char>)>
    decreases specs.len(),
{
    if specs.len() == 0 {
        Seq::empty()
    } else {
        aliases_of(specs.drop_last()) + specifier_aliases(specs.last())
    }
}

/// An import from `from` counts as one from the module `allowed`: the module
/// itself or a path below it.
pub open spec fn imports_from(from: Seq<char>, allowed: Seq<char>) -> bool {
    from == allowed || starts_with(from, allowed + seq!['/'])
}

/// Whether an import from `from` counts as one from the module `allowed`.
pub fn check_import_from(from: &str, allowed: &String) -> (r: bool)
    ensures
        r == imports_from(from@, allowed@),
{
    if str_eq(from, allowed.as_str()) {
        return true;
    }
    let f = chars_of(from);
    let a = concat(&chars_of(allowed.as_str()), &chars1('/'));
    starts_with_exec(&f, &a)
}

/// The names and aliases an import declaration brings in from the React Intl
/// module; nothing for an import from another module.
pub fn process_import_decl(import_decl: &JsImportDecl, state: &CoreState) -> (r: (NameSet, AliasMap))
    ensures
        imports_from(import_decl.src.value@, state.opts.module_source_name@) ==> {
            &&& r.0@ == names_of(import_decl.specifiers@).to_set()
            &&& r.1.entries() == aliases_of(import_decl.specifiers@)
        },
        !imports_from(import_decl.src.value@, state.opts.module_source_name@) ==> {
            &&& r.0@ == Set::<Seq<char>>::empty()
            &&& r.1.entries() == Seq::<(Seq<char>, Seq<char>)>::empty()
        },
{
    if !check_import_from(import_decl.src.value.as_str(), &state.opts.module_source_name) {
        return (NameSet::new(), AliasMap::new());
    }
    process_specifiers(&import_decl.specifiers)
}

/// The names and aliases that import specifiers bring in.
pub fn process_specifiers(specs: &Vec<JsImportSpecifier>) -> (r: (NameSet, AliasMap))
    ensures
        r.0@ == names_of(specs@).to_set(),
        r.1.entries() == aliases_of(specs@),
{
    let mut imported_names = NameSet::new();
    let mut alias_map = AliasMap::new();
    let mut i: usize = 0;
    assert(names_of(specs@.take(0)) =~= Seq::<Seq<char>>::empty());
    assert(names_of(specs@.take(0)).to_set() =~= Set::<Seq<char>>::empty());
    while i < specs.len()
        invariant
            i <= specs.len(),
            imported_names@ == names_of(specs@.take(i as int)).to_set(),
            alias_map.entries() == aliases_of(specs@.take(i as int)),
        decreases specs.len() - i,
    {
        let ghost prev = names_of(specs@.take(i as int));
        assert(specs@.take(i + 1).drop_last() =~= specs@.take(i as int));
        assert(specs@.take(i + 1).last() == specs@[i as int]);
        match &specs[i] {
            JsImportSpecifier::Named(named) => {
                let local = owned(named.local.sym.as_str());
                match &named.imported {
                    Some(imported) => {
                        let original = match imported {
                            JsModuleExportName::Ident(ident) => owned(ident.sym.as_str()),
                            JsModuleExportName::Str(s) => owned(s.value.as_str()),
                        };
                        let differ = !str_eq(original.as_str(), local.as_str());
                        imported_names.insert(owned(original.as_str()));
                        imported_names.insert(owned(local.as_str()));
                        proof {
                            crate::names::lemma_push_to_set(prev, original@);
                            crate::names::lemma_push_to_set(prev.push(original@), local@);
                            assert(prev.push(original@).push(local@) =~= prev + seq![
                                original@,
                                local@,
                            ]);
                        }
                        if differ {
                            alias_map.insert(local, original);
                        }
                    },
                    None => {
                        imported_names.insert(owned(local.as_str()));
                        proof {
                            crate::names::lemma_push_to_set(prev, local@);
                            assert(prev.push(local@) =~= prev + seq![local@]);
                        }
                    },
                }
            },
            JsImportSpecifier::Default(local) => {
                let d = owned("default");
                assert(d@ == default_name()) by {
                    reveal_strlit("default");
                }
                imported_names.insert(d);
                imported_names.insert(owned(local.sym.as_str()));
                proof {
                    crate::names::lemma_push_to_set(prev, default_name());
                    crate::names::lemma_push_to_set(prev.push(default_name()), local.sym@);
                    assert(prev.push(default_name()).push(local.sym@) =~= prev + seq![
                        default_name(),
                        local.sym@,
                    ]);
                }
            },
            JsImportSpecifier::Namespace(local) => {
                imported_names.insert(owned(local.sym.as_str()));
                proof {
                    crate::names::lemma_push_to_set(prev, local.sym@);
                    assert(prev.push(local.sym@) =~= prev + seq![local.sym@]);
                }
            },
        }
        i = i + 1;
    }
    assert(specs@.take(i as int) =~= specs@);
    (imported_names, alias_map)
}

impl<'a> ImportVisitor<'a> {
    pub fn new(state: &'a CoreState) -> (r: Self)
        ensures
            r.state == state,
            r.imported_names@ == Set::<Seq<char>>::empty(),
            r.alias_map.entries() == Seq::<(Seq<char>, Seq<char>)>::empty(),
    {
        ImportVisitor { state, alias_map: AliasMap::new(), imported_names: NameSet::new() }
    }

    /// Adds the names and aliases of one import declaration.
    pub fn visit_import_decl(&mut self, import_decl: &JsImportDecl)
        ensures
            final(self).state == old(self).state,
            imports_from(import_decl.src.value@, old(self).state.opts.module_source_name@) ==> {
                &&& final(self).imported_names@ == old(self).imported_names@.union(
                    names_of(import_decl.specifiers@).to_set(),
                )
                &&& final(self).alias_map.entries() == old(self).alias_map.entries()
                    + aliases_of(import_decl.specifiers@)
            },
            !imports_from(import_decl.src.value@, old(self).state.opts.module_source_name@) ==> {
                &&& final(self).imported_names@ == old(self).imported_names@
                &&& final(self).alias_map.entries() == old(self).alias_map.entries()
            },
    {
        let (names, aliases) = process_import_decl(import_decl, self.state);
        self.imported_names.extend(names);
        self.alias_map.extend(aliases);
        assert(old(self).imported_names@.union(Set::<Seq<char>>::empty()) =~= old(
            self,
        ).imported_names@);
        assert(old(self).alias_map.entries() + Seq::<(Seq<char>, Seq<char>)>::empty() =~= old(
            self,
        ).alias_map.entries());
    }
}

} // verus!

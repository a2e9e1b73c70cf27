//! Finding the project root above a source file.
//!
//! The root is the closest directory, starting at the one that holds the file
//! and going up, that contains one of the project indicators. Whether a path
//! exists is a question for the file system, so the search is a state machine:
//! [`RootSearch::probe`] names the path to look at, and [`RootSearch::step`]
//! takes the answer. [`find_project_root`] runs the machine against a given
//! list of existing paths.

use vstd::prelude::*;
use crate::paths::{join, join_exec, join_segments_exec, render, seg_views, segments, segments_exec, is_absolute, is_absolute_exec};
use crate::text::{chars_of, concat, owned, str_eq, string_of};

verus! {

/// The project indicators that the plugin looks for, in order.
pub open spec fn plugin_indicators() -> Seq<Seq<char>> {
    seq![
        "yarn.lock"@,
        "package.json"@,
        "package-lock.json"@,
        "tsconfig.json"@,
        "babel.config.js"@,
        "webpack.config.js"@,
        ".git"@,
    ]
}

/// The project indicators that the extractor looks for, in order.
pub open spec fn extractor_indicators() -> Seq<Seq<char>> {
    seq!["package.json"@, "package-lock.json"@, "yarn.lock"@, ".git"@]
}

/// The views of a list of strings.
pub open spec fn string_views(v: Seq<String>) -> Seq<Seq<char>> {
    v.map_values(|x: String| x@)
}

/// The project indicators that the plugin looks for.
pub fn plugin_indicator_list() -> (r: Vec<String>)
    ensures
        string_views(r@) == plugin_indicators(),
{
    let r = vec![
        owned("yarn.lock"),
        owned("package.json"),
        owned("package-lock.json"),
        owned("tsconfig.json"),
        owned("babel.config.js"),
        owned("webpack.config.js"),
        owned(".git"),
    ];
    assert(string_views(r@) =~= plugin_indicators());
    r
}

/// The project indicators that the extractor looks for.
pub fn extractor_indicator_list() -> (r: Vec<String>)
    ensures
        string_views(r@) == extractor_indicators(),
{
    let r = vec![owned("package.json"), owned("package-lock.json"), owned("yarn.lock"), owned(".git")];
    assert(string_views(r@) =~= extractor_indicators());
    r
}

/// The ancestor of `file` made of its first `k` segments.
pub open spec fn ancestor(file: Seq<char>, k: int) -> Seq<char> {
    render(is_absolute(file), segments(file).take(k))
}

/// Some indicator inside `dir` exists.
pub open spec fn has_indicator(dir: Seq<char>, inds: Seq<Seq<char>>, present: spec_fn(Seq<char>) -> bool) -> bool {
    exists|i: int| 0 <= i < inds.len() && #[trigger] present(join(dir, inds[i]))
}

/// The closest of the ancestors `0..=k` of `file`, looking from `k` down,
/// that holds an indicator.
pub open spec fn search_down(file: Seq<char>, k: int, inds: Seq<Seq<char>>, present: spec_fn(Seq<char>) -> bool) -> Option<
    Seq<char>,
>
    decreases k,
{
    if k < 0 {
        None
    } else if has_indicator(ancestor(file, k), inds, present) {
        Some(ancestor(file, k))
    } else if k == 0 {
        None
    } else {
        search_down(file, k - 1, inds, present)
    }
}

/// The project root of `file` when exactly the paths satisfying `present` exist:
/// the closest directory above the file that holds an indicator.
pub open spec fn spec_project_root(file: Seq<char>, inds: Seq<Seq<char>>, present: spec_fn(Seq<char>) -> bool) -> Option<
    Seq<char>,
> {
    if segments(file).len() == 0 {
        None
    } else {
        search_down(file, segments(file).len() - 1, inds, present)
    }
}

/// What the search does after an answer.
#[derive(Debug, Clone, PartialEq, Eq)]
pub enum SearchStep {
    /// The root was found.
    Found(String),
    /// Another path is to be looked at (see [`RootSearch::probe`]).
    Continue,
    /// No directory above the file holds an indicator.
    NotFound,
}

/// A search for the project root of one file.
pub struct RootSearch {
    indicators: Vec<String>,
    absolute: bool,
    segs: Vec<Vec<char>>,
    /// The number of segments of the directory being looked at.
    level: usize,
    /// The indicator to look for next.
    next: usize,
    file: Ghost<Seq<char>>,
}

impl RootSearch {
    /// The file whose root is searched.
    pub closed spec fn file(&self) -> Seq<char> {
        self.file@
    }

    /// The indicators looked for.
    pub closed spec fn inds(&self) -> Seq<Seq<char>> {
        string_views(self.indicators@)
    }

    /// The number of segments of the directory being looked at.
    pub closed spec fn level(&self) -> int {
        self.level as int
    }

    /// The indicator looked for next.
    pub closed spec fn next(&self) -> int {
        self.next as int
    }

    /// The state is one the search can be in.
    pub closed spec fn wf(&self) -> bool {
        &&& seg_views(self.segs@) == segments(self.file@)
        &&& self.absolute == is_absolute(self.file@)
        &&& self.level < self.segs.len()
        &&& self.next < self.indicators.len()
    }

    /// The directory being looked at.
    pub open spec fn current(&self) -> Seq<char> {
        ancestor(self.file(), self.level())
    }

    /// Starts the search for one of `indicators` at the directory that holds
    /// `file_path`; `None` when the path has no parent.
    pub fn start(file_path: &str, indicators: Vec<String>) -> (r: Option<RootSearch>)
        requires
            indicators.len() > 0,
        ensures
            segments(file_path@).len() == 0 <==> r is None,
            r matches Some(s) ==> {
                &&& s.wf()
                &&& s.file() == file_path@
                &&& s.inds() == string_views(indicators@)
                &&& s.level() == segments(file_path@).len() - 1
                &&& s.next() == 0
            },
    {
        let p = chars_of(file_path);
        let segs = segments_exec(&p);
        if segs.len() == 0 {
            return None;
        }
        let level = segs.len() - 1;
        Some(
            RootSearch {
                indicators,
                absolute: is_absolute_exec(&p),
                segs,
                level,
                next: 0,
                file: Ghost(file_path@),
            },
        )
    }

    /// The directory being looked at.
    pub fn current_dir(&self) -> (r: Vec<char>)
        requires
            self.wf(),
        ensures
            r@ == self.current(),
    {
        let mut head: Vec<Vec<char>> = Vec::new();
        let mut k: usize = 0;
        while k < self.level
            invariant
                self.wf(),
                k <= self.level,
                seg_views(head@) == seg_views(self.segs@).take(k as int),
            decreases self.level - k,
        {
            let piece = chars_copy(&self.segs[k]);
            let ghost before = head@;
            head.push(piece);
            assert(head@ == before.push(piece));
            assert(seg_views(head@) =~= seg_views(before).push(self.segs@[k as int]@));
            k = k + 1;
            assert(seg_views(head@) =~= seg_views(self.segs@).take(k as int));
        }
        let body = join_segments_exec(&head, 0);
        assert(seg_views(head@).skip(0) =~= seg_views(head@));
        if self.absolute {
            let r = concat(&['/'], &body);
            assert(r@ =~= render(true, segments(self.file@).take(self.level as int)));
            r
        } else {
            assert(body@ =~= render(false, segments(self.file@).take(self.level as int)));
            body
        }
    }

    /// The path whose existence decides the next step.
    pub fn probe(&self) -> (r: String)
        requires
            self.wf(),
        ensures
            r@ == join(self.current(), self.inds()[self.next()]),
    {
        let dir = self.current_dir();
        let name = chars_of(self.indicators[self.next].as_str());
        let p = join_exec(&dir, &name);
        string_of(&p)
    }

    /// Takes the answer for [`RootSearch::probe`]: whether that path exists.
    pub fn step(&mut self, exists: bool) -> (r: SearchStep)
        requires
            old(self).wf(),
        ensures
            final(self).file() == old(self).file(),
            final(self).inds() == old(self).inds(),
            exists ==> (r matches SearchStep::Found(d) && d@ == old(self).current()),
            !exists && old(self).next() + 1 < old(self).inds().len() ==> {
                &&& r == SearchStep::Continue
                &&& final(self).wf()
                &&& final(self).level() == old(self).level()
                &&& final(self).next() == old(self).next() + 1
            },
            !exists && old(self).next() + 1 == old(self).inds().len() && old(self).level() > 0 ==> {
                &&& r == SearchStep::Continue
                &&& final(self).wf()
                &&& final(self).level() == old(self).level() - 1
                &&& final(self).next() == 0
            },
            !exists && old(self).next() + 1 == old(self).inds().len() && old(self).level() == 0 ==> r
                == SearchStep::NotFound,
    {
        if exists {
            let dir = self.current_dir();
            return SearchStep::Found(string_of(&dir));
        }
        if self.next + 1 < self.indicators.len() {
            self.next = self.next + 1;
            SearchStep::Continue
        } else if self.level > 0 {
            self.level = self.level - 1;
            self.next = 0;
            SearchStep::Continue
        } else {
            SearchStep::NotFound
        }
    }
}

/// A copy of a character vector.
fn chars_copy(v: &Vec<char>) -> (r: Vec<char>)
    ensures
        r@ == v@,
{
    let mut r: Vec<char> = Vec::new();
    let mut i: usize = 0;
    while i < v.len()
        invariant
            i <= v.len(),
            r@ == v@.take(i as int),
        decreases v.len() - i,
    {
        r.push(v[i]);
        i = i + 1;
        assert(r@ =~= v@.take(i as int));
    }
    assert(r@ =~= v@);
    r
}

/// `p` is one of `existing`.
pub open spec fn listed(existing: Seq<String>, p: Seq<char>) -> bool {
    exists|i: int| 0 <= i < existing.len() && #[trigger] existing[i]@ == p
}

/// The outcome of a search that is at directory `level`, looking for the
/// indicators from `next` on.
pub open spec fn resume(
    file: Seq<char>,
    level: int,
    next: int,
    inds: Seq<Seq<char>>,
    present: spec_fn(Seq<char>) -> bool,
) -> Option<Seq<char>> {
    if exists|i: int| next <= i < inds.len() && #[trigger] present(join(ancestor(file, level), inds[i])) {
        Some(ancestor(file, level))
    } else {
        search_down(file, level - 1, inds, present)
    }
}

/// Whether `p` is one of `existing`.
fn is_listed(existing: &Vec<String>, p: &str) -> (r: bool)
    ensures
        r == listed(existing@, p@),
{
    let mut i: usize = 0;
    while i < existing.len()
        invariant
            i <= existing.len(),
            forall|m: int| 0 <= m < i ==> #[trigger] existing@[m]@ != p@,
        decreases existing.len() - i,
    {
        if str_eq(existing[i].as_str(), p) {
            return true;
        }
        i = i + 1;
    }
    false
}

/// A search at the top of `level` gives what [`search_down`] gives there.
proof fn lemma_resume_start(file: Seq<char>, level: int, inds: Seq<Seq<char>>, present: spec_fn(Seq<char>) -> bool)
    requires
        level >= 0,
    ensures
        resume(file, level, 0, inds, present) == search_down(file, level, inds, present),
{
    if has_indicator(ancestor(file, level), inds, present) {
        let i = choose|i: int| 0 <= i < inds.len() && #[trigger] present(join(ancestor(file, level), inds[i]));
        assert(0 <= i < inds.len() && present(join(ancestor(file, level), inds[i])));
    }
}

/// The project root of `file_path` when exactly the paths in `existing` exist:
/// the closest directory above the file that holds one of `indicators`, or
/// `None` when there is none.
pub fn find_project_root_among(file_path: &str, indicators: Vec<String>, existing: &Vec<String>) -> (r: Option<String>)
    requires
        indicators.len() > 0,
    ensures
        r matches Some(d) ==> spec_project_root(file_path@, string_views(indicators@), |p: Seq<char>| listed(existing@, p)) == Some(d@),
        r is None ==> spec_project_root(file_path@, string_views(indicators@), |p: Seq<char>| listed(existing@, p)) is None,
{
    let ghost present = |p: Seq<char>| listed(existing@, p);
    let ghost inds = string_views(indicators@);
    let ghost closure = |p: Seq<char>| listed(existing@, p);
    assert(present =~= closure);
    let mut search = match RootSearch::start(file_path, indicators) {
        None => return None,
        Some(s) => s,
    };
    proof {
        lemma_resume_start(file_path@, search.level(), inds, present);
    }
    loop
        invariant
            search.wf(),
            search.file() == file_path@,
            search.inds() == inds,
            present == closure,
            closure == (|p: Seq<char>| listed(existing@, p)),
            inds == string_views(indicators@),
            spec_project_root(file_path@, inds, present) == resume(
                file_path@,
                search.level(),
                search.next(),
                inds,
                present,
            ),
        decreases search.level() * (inds.len() + 1) + (inds.len() - search.next()),
    {
        let probe = search.probe();
        let here = is_listed(existing, probe.as_str());
        let ghost lv = search.level();
        let ghost nx = search.next();
        let ghost cur = search.current();
        proof {
            if here {
                assert(present(join(cur, inds[nx])));
            } else {
                assert(!present(join(cur, inds[nx])));
            }
        }
        match search.step(here) {
            SearchStep::Found(d) => {
                assert(present(join(ancestor(file_path@, lv), inds[nx])));
                assert(resume(file_path@, lv, nx, inds, present) == Some(cur));
                return Some(d);
            },
            SearchStep::NotFound => {
                assert(!(exists|i: int| nx <= i < inds.len() && #[trigger] present(join(ancestor(file_path@, lv), inds[i])))) by {
                    if exists|i: int| nx <= i < inds.len() && #[trigger] present(join(ancestor(file_path@, lv), inds[i])) {
                        let i = choose|i: int| nx <= i < inds.len() && #[trigger] present(join(ancestor(file_path@, lv), inds[i]));
                        assert(i == nx);
                    }
                }
                assert(resume(file_path@, lv, nx, inds, present) is None);
                return None;
            },
            SearchStep::Continue => {
                proof {
                    if search.level() == lv {
                        assert(resume(file_path@, lv, nx, inds, present) == resume(file_path@, lv, nx + 1, inds, present)) by {
                            if exists|i: int| nx <= i < inds.len() && #[trigger] present(join(ancestor(file_path@, lv), inds[i])) {
                                let i = choose|i: int| nx <= i < inds.len() && #[trigger] present(join(ancestor(file_path@, lv), inds[i]));
                                assert(i != nx);
                            }
                        }
                    } else {
                        lemma_resume_start(file_path@, lv - 1, inds, present);
                        assert(!(exists|i: int| nx <= i < inds.len() && #[trigger] present(join(ancestor(file_path@, lv), inds[i])))) by {
                            if exists|i: int| nx <= i < inds.len() && #[trigger] present(join(ancestor(file_path@, lv), inds[i])) {
                                let i = choose|i: int| nx <= i < inds.len() && #[trigger] present(join(ancestor(file_path@, lv), inds[i]));
                                assert(i == nx);
                            }
                        }
                    }
                }
                assert(search.level() * (inds.len() + 1) + (inds.len() - search.next()) < lv * (inds.len() + 1) + (inds.len() - nx)) by (nonlinear_arith)
                    requires
                        (search.level() == lv && search.next() == nx + 1) || (search.level() == lv - 1 && search.next() == 0 && nx < inds.len()),
                ;
            },
        }
    }
}

/// The project root of `file_path` that the plugin finds when exactly the paths
/// in `existing` exist.
pub fn find_project_root(file_path: &str, existing: &Vec<String>) -> (r: Option<String>)
    ensures
        r matches Some(d) ==> spec_project_root(file_path@, plugin_indicators(), |p: Seq<char>| listed(existing@, p)) == Some(d@),
        r is None ==> spec_project_root(file_path@, plugin_indicators(), |p: Seq<char>| listed(existing@, p)) is None,
{
    let inds = plugin_indicator_list();
    assert(string_views(inds@).len() == inds.len());
    find_project_root_among(file_path, inds, existing)
}

/// What [`search_down`] finds: the highest-numbered ancestor up to `k` that
/// holds an indicator, or nothing when none of them does.
proof fn lemma_search_down(file: Seq<char>, k: int, inds: Seq<Seq<char>>, present: spec_fn(Seq<char>) -> bool)
    ensures
        search_down(file, k, inds, present) matches Some(d) ==> exists|j: int|
            #![trigger ancestor(file, j)]
            0 <= j <= k && d == ancestor(file, j) && has_indicator(d, inds, present) && forall|m: int|
                j < m <= k ==> !has_indicator(#[trigger] ancestor(file, m), inds, present),
        search_down(file, k, inds, present) is None ==> forall|m: int|
            0 <= m <= k ==> !has_indicator(#[trigger] ancestor(file, m), inds, present),
    decreases k,
{
    if k > 0 {
        lemma_search_down(file, k - 1, inds, present);
        if !has_indicator(ancestor(file, k), inds, present) {
            if let Some(d) = search_down(file, k - 1, inds, present) {
                let j = choose|j: int|
                    #![trigger ancestor(file, j)]
                    0 <= j <= k - 1 && d == ancestor(file, j) && has_indicator(d, inds, present) && forall|m: int|
                        j < m <= k - 1 ==> !has_indicator(#[trigger] ancestor(file, m), inds, present);
                assert(forall|m: int| j < m <= k ==> !has_indicator(#[trigger] ancestor(file, m), inds, present));
            }
        }
    }
}

/// The project root is the closest directory above the file that holds one of
/// the indicators: it holds one, and no directory between it and the file
/// does. When there is no root, no directory above the file holds one.
pub proof fn law_project_root_is_closest(file: Seq<char>, inds: Seq<Seq<char>>, present: spec_fn(Seq<char>) -> bool)
    ensures
        spec_project_root(file, inds, present) matches Some(d) ==> exists|j: int|
            #![trigger ancestor(file, j)]
            0 <= j < segments(file).len() && d == ancestor(file, j) && has_indicator(d, inds, present)
                && forall|m: int|
                j < m < segments(file).len() ==> !has_indicator(#[trigger] ancestor(file, m), inds, present),
        spec_project_root(file, inds, present) is None ==> forall|m: int|
            0 <= m < segments(file).len() ==> !has_indicator(#[trigger] ancestor(file, m), inds, present),
{
    lemma_search_down(file, segments(file).len() - 1, inds, present);
}

} // verus!

//! The structure of a Cargo workspace as the registry records it: its member
//! crates, their source files as modules, and the dependencies between the
//! members. `cargo metadata` and the walk over the source directories run
//! outside; what they report arrives here as `PackageInfo` values.
use vstd::prelude::*;

use crate::advisory::{opt_view, strings_view};
use crate::models::Crate;
use crate::queries::join_with;
use crate::text::{concat, ends_with, split, string_of};

verus! {

/// A package as `cargo metadata` reports it, with the Rust files found under
/// its `src` directory (paths relative to that directory).
#[derive(Debug, Clone)]
pub struct PackageInfo {
    pub id: String,
    pub name: String,
    /// The directory of its manifest.
    pub manifest_dir: String,
    pub description: Option<String>,
    /// The names of the packages it depends on.
    pub dependencies: Vec<String>,
    pub rs_files: Vec<String>,
}

/// A source file of a crate: its path relative to the workspace root and its
/// module name.
#[derive(Debug, Clone)]
pub struct ModuleInfo {
    pub path: String,
    pub name: String,
}

/// What the registry records of a workspace.
#[derive(Debug, Clone)]
pub struct WorkspaceInfo {
    pub crates: Vec<Crate>,
    /// The modules of each crate, by crate name.
    pub modules: Vec<(String, Vec<ModuleInfo>)>,
    /// Dependencies between members, as `(from crate, to crate)` names.
    pub dependencies: Vec<(String, String)>,
}

// ---------------------------------------------------------------- paths

/// The components of a `/`-separated path: a leading `/` for an absolute
/// path, then its non-empty segments, where `.` counts only as the first
/// segment of a relative path.
pub open spec fn components(p: Seq<char>) -> Seq<Seq<char>> {
    let pieces = split(p, '/');
    (if p.len() > 0 && p[0] == '/' {
        seq!["/"@]
    } else {
        Seq::empty()
    }) + kept_pieces(pieces, pieces.len() as int)
}

/// The pieces among the first `n` that are components.
pub open spec fn kept_pieces(pieces: Seq<Seq<char>>, n: int) -> Seq<Seq<char>>
    decreases n,
{
    if n <= 0 || n > pieces.len() {
        Seq::empty()
    } else if pieces[n - 1].len() > 0 && (pieces[n - 1] != "."@ || n - 1 == 0) {
        kept_pieces(pieces, n - 1).push(pieces[n - 1])
    } else {
        kept_pieces(pieces, n - 1)
    }
}

/// The path that components spell: `/` for the root, then the segments
/// joined with `/`.
pub open spec fn render(cs: Seq<Seq<char>>) -> Seq<char> {
    if cs.len() > 0 && cs[0] == "/"@ {
        "/"@ + join_with(cs.drop_first(), "/"@)
    } else {
        join_with(cs, "/"@)
    }
}

/// `path` relative to `base`: when the components of `base` begin those of
/// `path`, the rest of them; otherwise `path` as it is.
pub open spec fn path_diff(path: Seq<char>, base: Seq<char>) -> Seq<char> {
    let pc = components(path);
    let bc = components(base);
    if bc.len() <= pc.len() && pc.take(bc.len() as int) == bc {
        render(pc.skip(bc.len() as int))
    } else {
        path
    }
}

/// The components of a path (see `components`).
fn components_of(p: &str) -> (r: Vec<String>)
    ensures
        strings_view(r) == components(p@),
{
    let cs = crate::text::chars_of(p);
    let pieces = crate::text::split_chars(cs.as_slice(), '/');
    let ghost pv = pieces@.map_values(|v: Vec<char>| v@);
    let mut out: Vec<String> = Vec::new();
    let ghost root: Seq<Seq<char>> = if p@.len() > 0 && p@[0] == '/' {
        seq!["/"@]
    } else {
        Seq::empty()
    };
    if cs.len() > 0 && cs[0] == '/' {
        out.push(crate::text::owned("/"));
    }
    assert(strings_view(out) =~= root);
    let dot = crate::text::chars_of(".");
    proof {
        reveal_strlit(".");
    }
    let mut i: usize = 0;
    while i < pieces.len()
        invariant
            i <= pieces.len(),
            pv == pieces@.map_values(|v: Vec<char>| v@),
            pv == split(p@, '/'),
            dot@ == "."@,
            strings_view(out) == root + kept_pieces(pv, i as int),
        decreases pieces.len() - i,
    {
        assert(pv[i as int] == pieces@[i as int]@);
        let piece = pieces[i].as_slice();
        if piece.len() > 0 && (!crate::text::chars_eq(piece, dot.as_slice()) || i == 0) {
            let t = string_of(piece);
            let ghost before = strings_view(out);
            out.push(t);
            assert(strings_view(out) == before.push(t@));
            assert(root + kept_pieces(pv, i + 1) == (root + kept_pieces(pv, i as int)).push(pv[i as int]));
        }
        i = i + 1;
    }
    out
}

/// A path relative to a base (see `path_diff`).
pub fn pathdiff_from(path: &str, base: &str) -> (r: String)
    ensures
        r@ == path_diff(path@, base@),
{
    let pc = components_of(path);
    let bc = components_of(base);
    let ghost pv = strings_view(pc);
    let ghost bv = strings_view(bc);
    if bc.len() > pc.len() {
        return crate::text::owned(path);
    }
    let mut k: usize = 0;
    while k < bc.len()
        invariant
            k <= bc.len(),
            bc.len() <= pc.len(),
            pv == strings_view(pc),
            bv == strings_view(bc),
            pv == components(path@),
            bv == components(base@),
            pv.take(k as int) == bv.take(k as int),
        decreases bc.len() - k,
    {
        assert(pv[k as int] == pc@[k as int]@);
        assert(bv[k as int] == bc@[k as int]@);
        if !crate::text::str_eq(pc[k].as_str(), bc[k].as_str()) {
            assert(pv.take(bv.len() as int)[k as int] != bv[k as int]);
            assert(pv.take(bv.len() as int) != bv);
            return crate::text::owned(path);
        }
        assert(pv.take(k + 1) == pv.take(k as int).push(pv[k as int]));
        assert(bv.take(k + 1) == bv.take(k as int).push(bv[k as int]));
        k = k + 1;
    }
    assert(bv.take(bv.len() as int) == bv);
    let mut rest: Vec<String> = Vec::new();
    let mut j: usize = bc.len();
    while j < pc.len()
        invariant
            bc.len() <= j <= pc.len(),
            pv == strings_view(pc),
            strings_view(rest) == pv.skip(bv.len() as int).take(j - bv.len()),
            bv.len() == bc.len(),
            pv == components(path@),
            bv == components(base@),
            pv.take(bv.len() as int) == bv,
        decreases pc.len() - j,
    {
        let ghost before = strings_view(rest);
        rest.push(pc[j].clone());
        assert(strings_view(rest) == before.push(pv[j as int]));
        assert(pv.skip(bv.len() as int).take(j + 1 - bv.len()) == pv.skip(bv.len() as int).take(j - bv.len()).push(
            pv[j as int],
        ));
        j = j + 1;
    }
    let ghost rv = pv.skip(bv.len() as int);
    assert(rv.take(rv.len() as int) == rv);
    if rest.len() > 0 && crate::text::str_eq(rest[0].as_str(), "/") {
        let mut tail: Vec<String> = Vec::new();
        let mut q: usize = 1;
        while q < rest.len()
            invariant
                1 <= q <= rest.len(),
                strings_view(tail) == strings_view(rest).drop_first().take(q - 1),
            decreases rest.len() - q,
        {
            let ghost before = strings_view(tail);
            tail.push(rest[q].clone());
            assert(strings_view(tail) == before.push(strings_view(rest)[q as int]));
            assert(strings_view(rest).drop_first().take(q as int) == strings_view(rest).drop_first().take(q - 1).push(
                strings_view(rest)[q as int],
            ));
            q = q + 1;
        }
        assert(strings_view(rest).drop_first().take(rest.len() - 1) == strings_view(rest).drop_first());
        let j = crate::extract::join_strings(&tail, "/");
        concat("/", j.as_str())
    } else {
        crate::extract::join_strings(&rest, "/")
    }
}

/// The last `/`-separated segment of a path.
pub open spec fn last_segment(p: Seq<char>) -> Seq<char> {
    split(p, '/').last()
}

/// Whether a file name has the extension `rs`: it ends with `.rs` and has
/// something before that.
pub open spec fn has_rs_extension(name: Seq<char>) -> bool {
    name.len() > 3 && ends_with(name, ".rs"@)
}

/// Whether a walked path names a Rust source file (see `has_rs_extension`).
pub fn is_rust_source(path: &str) -> (r: bool)
    ensures
        r == has_rs_extension(last_segment(path@)),
{
    let cs = crate::text::chars_of(path);
    let pieces = crate::text::split_chars(cs.as_slice(), '/');
    let last = pieces[pieces.len() - 1].as_slice();
    let rs = crate::text::chars_of(".rs");
    last.len() > 3 && crate::text::has_suffix(last, rs.as_slice())
}

/// The module of a source file at `relative` under the `src` directory of a
/// crate at `base`: its path `<base>/src/<relative>` and, as its name, the file
/// name without `.rs`.
pub open spec fn module_info_spec(base: Seq<char>, relative: Seq<char>) -> (Seq<char>, Seq<char>) {
    let name = last_segment(relative);
    (base + "/src/"@ + relative, if ends_with(name, ".rs"@) {
        name.take(name.len() - 3)
    } else {
        name
    })
}

/// The module of a source file (see `module_info_spec`).
pub fn module_info_for(base: &str, relative: &str) -> (r: ModuleInfo)
    ensures
        (r.path@, r.name@) == module_info_spec(base@, relative@),
{
    let mut path = concat(base, "/src/");
    path.append(relative);
    let cs = crate::text::chars_of(relative);
    let pieces = crate::text::split_chars(cs.as_slice(), '/');
    let last = pieces[pieces.len() - 1].as_slice();
    let rs = crate::text::chars_of(".rs");
    proof {
        reveal_strlit(".rs");
    }
    let name = if crate::text::has_suffix(last, rs.as_slice()) {
        let cut = crate::text::slice_of(last, 0, last.len() - 3);
        string_of(cut.as_slice())
    } else {
        string_of(last)
    };
    ModuleInfo { path, name }
}

// ---------------------------------------------------------------- the workspace

/// Whether a package is a member of the workspace.
pub open spec fn is_member(p: PackageInfo, members: Seq<String>) -> bool {
    exists|k: int| 0 <= k < members.len() && (#[trigger] members[k])@ == p.id@
}

/// The member packages, in order.
pub open spec fn member_packages(ps: Seq<PackageInfo>, members: Seq<String>) -> Seq<PackageInfo>
    decreases ps.len(),
{
    if ps.len() == 0 {
        Seq::empty()
    } else if is_member(ps.last(), members) {
        member_packages(ps.drop_last(), members).push(ps.last())
    } else {
        member_packages(ps.drop_last(), members)
    }
}

/// Whether a name is the name of one of the packages.
pub open spec fn names_package(ps: Seq<PackageInfo>, name: Seq<char>) -> bool {
    exists|k: int| 0 <= k < ps.len() && (#[trigger] ps[k]).name@ == name
}

/// The dependencies of a package on packages among `ms`, as `(from, to)`.
pub open spec fn internal_deps(p: PackageInfo, ms: Seq<PackageInfo>, n: int) -> Seq<(Seq<char>, Seq<char>)>
    decreases n,
{
    if n <= 0 || n > p.dependencies.len() {
        Seq::empty()
    } else if names_package(ms, p.dependencies@[n - 1]@) {
        internal_deps(p, ms, n - 1).push((p.name@, p.dependencies@[n - 1]@))
    } else {
        internal_deps(p, ms, n - 1)
    }
}

/// The dependencies between members: those of each member in turn.
pub open spec fn workspace_deps(ps: Seq<PackageInfo>, ms: Seq<PackageInfo>) -> Seq<(Seq<char>, Seq<char>)>
    decreases ps.len(),
{
    if ps.len() == 0 {
        Seq::empty()
    } else {
        workspace_deps(ps.drop_last(), ms) + internal_deps(ps.last(), ms, ps.last().dependencies.len() as int)
    }
}

/// Whether `m` holds the modules of the files `files` of a crate at `base`.
pub open spec fn modules_of(m: Seq<ModuleInfo>, base: Seq<char>, files: Seq<String>) -> bool {
    m.len() == files.len() && forall|i: int| 0 <= i < m.len() ==> ((#[trigger] m[i]).path@, m[i].name@)
        == module_info_spec(base, files[i]@)
}

/// Whether a workspace records exactly the member packages, in order: each as
/// a crate named after it at its directory relative to `base`, with its
/// description, with its source files as modules, and with the dependencies
/// between members.
pub open spec fn records_workspace(w: WorkspaceInfo, ps: Seq<PackageInfo>, members: Seq<String>, base: Seq<char>) -> bool {
    let ms = member_packages(ps, members);
    &&& w.crates.len() == ms.len()
    &&& w.modules.len() == ms.len()
    &&& forall|k: int| 0 <= k < ms.len() ==> {
        &&& (#[trigger] w.crates@[k]).id is None
        &&& w.crates@[k].name@ == ms[k].name@
        &&& w.crates@[k].path@ == path_diff(ms[k].manifest_dir@, base)
        &&& opt_view(w.crates@[k].description) == opt_view(ms[k].description)
        &&& w.crates@[k].bounded_context is None
        &&& w.modules@[k].0@ == ms[k].name@
        &&& modules_of(w.modules@[k].1@, path_diff(ms[k].manifest_dir@, base), ms[k].rs_files@)
    }
    &&& crate::queries::pairs_view(w.dependencies@) == workspace_deps(ms, ms)
}

/// Whether some string of `v` has the characters of `s`.
fn contains_text(v: &Vec<String>, s: &str) -> (r: bool)
    ensures
        r == exists|k: int| 0 <= k < v.len() && (#[trigger] v@[k])@ == s@,
{
    let mut i: usize = 0;
    while i < v.len()
        invariant
            i <= v.len(),
            forall|k: int| 0 <= k < i ==> (#[trigger] v@[k])@ != s@,
        decreases v.len() - i,
    {
        if crate::text::str_eq(v[i].as_str(), s) {
            return true;
        }
        i = i + 1;
    }
    false
}

/// What the registry records of a workspace, from the packages that `cargo
/// metadata` reports, the ids of the members, and the directory that crate
/// paths are relative to (see `records_workspace`).
pub fn build_workspace(packages: &Vec<PackageInfo>, members: &Vec<String>, base: &str) -> (r: WorkspaceInfo)
    ensures
        records_workspace(r, packages@, members@, base@),
{
    let ghost ms = member_packages(packages@, members@);
    // the indices of the member packages, in order
    let mut mine: Vec<usize> = Vec::new();
    let mut names: Vec<String> = Vec::new();
    let mut i: usize = 0;
    while i < packages.len()
        invariant
            i <= packages.len(),
            forall|k: int| 0 <= k < mine.len() ==> (#[trigger] mine@[k]) < packages.len(),
            mine@.map_values(|k: usize| packages@[k as int]) == member_packages(packages@.take(i as int), members@),
            names.len() == mine.len(),
            forall|k: int| 0 <= k < names.len() ==> (#[trigger] names@[k])@ == packages@[mine@[k] as int].name@,
        decreases packages.len() - i,
    {
        assert(packages@.take(i + 1).drop_last() == packages@.take(i as int));
        assert(packages@.take(i + 1).last() == packages@[i as int]);
        if contains_text(members, packages[i].id.as_str()) {
            let ghost before = mine@.map_values(|k: usize| packages@[k as int]);
            mine.push(i);
            assert(mine@.map_values(|k: usize| packages@[k as int]) == before.push(packages@[i as int]));
            names.push(packages[i].name.clone());
        }
        i = i + 1;
    }
    assert(packages@.take(packages.len() as int) == packages@);
    let mut crates: Vec<Crate> = Vec::new();
    let mut modules: Vec<(String, Vec<ModuleInfo>)> = Vec::new();
    let mut deps: Vec<(String, String)> = Vec::new();
    let mut j: usize = 0;
    while j < mine.len()
        invariant
            j <= mine.len(),
            forall|k: int| 0 <= k < mine.len() ==> (#[trigger] mine@[k]) < packages.len(),
            mine@.map_values(|k: usize| packages@[k as int]) == ms,
            names.len() == mine.len(),
            forall|k: int| 0 <= k < names.len() ==> (#[trigger] names@[k])@ == ms[k].name@,
            crates.len() == j,
            modules.len() == j,
            forall|k: int| 0 <= k < j ==> {
                &&& (#[trigger] crates@[k]).id is None
                &&& crates@[k].name@ == ms[k].name@
                &&& crates@[k].path@ == path_diff(ms[k].manifest_dir@, base@)
                &&& opt_view(crates@[k].description) == opt_view(ms[k].description)
                &&& crates@[k].bounded_context is None
                &&& modules@[k].0@ == ms[k].name@
                &&& modules_of(modules@[k].1@, path_diff(ms[k].manifest_dir@, base@), ms[k].rs_files@)
            },
            crate::queries::pairs_view(deps@) == workspace_deps(ms.take(j as int), ms),
        decreases mine.len() - j,
    {
        let p = &packages[mine[j]];
        assert(*p == ms[j as int]);
        let rel = pathdiff_from(p.manifest_dir.as_str(), base);
        let description = match &p.description {
            Some(d) => Some(d.clone()),
            None => None,
        };
        crates.push(Crate { id: None, name: p.name.clone(), path: rel.clone(), description, bounded_context: None });
        let mut infos: Vec<ModuleInfo> = Vec::new();
        let mut f: usize = 0;
        while f < p.rs_files.len()
            invariant
                f <= p.rs_files.len(),
                infos.len() == f,
                forall|q: int| 0 <= q < f ==> ((#[trigger] infos@[q]).path@, infos@[q].name@) == module_info_spec(
                    rel@,
                    p.rs_files@[q]@,
                ),
            decreases p.rs_files.len() - f,
        {
            infos.push(module_info_for(rel.as_str(), p.rs_files[f].as_str()));
            f = f + 1;
        }
        modules.push((p.name.clone(), infos));
        let ghost before = crate::queries::pairs_view(deps@);
        let mut d: usize = 0;
        while d < p.dependencies.len()
            invariant
                d <= p.dependencies.len(),
                j < mine.len(),
                *p == ms[j as int],
                names.len() == ms.len(),
                forall|k: int| 0 <= k < names.len() ==> (#[trigger] names@[k])@ == ms[k].name@,
                crate::queries::pairs_view(deps@) == before + internal_deps(*p, ms, d as int),
            decreases p.dependencies.len() - d,
        {
            let hit = contains_text(&names, p.dependencies[d].as_str());
            assert(hit == names_package(ms, p.dependencies@[d as int]@)) by {
                if hit {
                    let k = choose|k: int| 0 <= k < names.len() && (#[trigger] names@[k])@ == p.dependencies@[d as int]@;
                    assert(ms[k].name@ == p.dependencies@[d as int]@);
                }
                if names_package(ms, p.dependencies@[d as int]@) {
                    let k = choose|k: int| 0 <= k < ms.len() && (#[trigger] ms[k]).name@ == p.dependencies@[d as int]@;
                    assert(names@[k]@ == p.dependencies@[d as int]@);
                }
            }
            if hit {
                let pair = (p.name.clone(), p.dependencies[d].clone());
                let ghost b2 = crate::queries::pairs_view(deps@);
                deps.push(pair);
                assert(crate::queries::pairs_view(deps@) == b2.push((pair.0@, pair.1@)));
            }
            d = d + 1;
        }
        assert(ms.take(j + 1).drop_last() == ms.take(j as int));
        assert(ms.take(j + 1).last() == ms[j as int]);
        j = j + 1;
    }
    assert(ms.len() == mine.len());
    assert(ms.take(mine.len() as int) == ms);
    WorkspaceInfo { crates, modules, dependencies: deps }
}

} // verus!

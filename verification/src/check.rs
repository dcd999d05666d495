//! Checking source files against the registry, as the pre-commit hook does:
//! which staged files are checked, what each symbol of a file is told, what is
//! printed, and the exit code. Reading files and running git stay outside.
use vstd::prelude::*;

use rusqlite::Connection;

use crate::advisory::{Advisory, AdvisoryView};
use crate::queries::{qualified, validate_boundary, validate_creation};
use crate::text::{concat, ends_with, owned, split, string_of};
use crate::time::{decimal, decimal_chars};

verus! {

// ---------------------------------------------------------------- staged files

/// `s` without one trailing carriage return.
pub open spec fn strip_cr(s: Seq<char>) -> Seq<char> {
    if s.len() > 0 && s.last() == '\r' {
        s.drop_last()
    } else {
        s
    }
}

/// The lines of a text (`str::lines`): the pieces between newlines, each
/// without the carriage return before its newline; a final empty piece is no
/// line.
pub open spec fn text_lines(s: Seq<char>) -> Seq<Seq<char>> {
    let pieces = split(s, '\n');
    let n = pieces.len();
    Seq::new((n - 1) as nat, |i: int| strip_cr(pieces[i])) + if n > 0 && pieces[n - 1].len() > 0 {
        seq![pieces[n - 1]]
    } else {
        Seq::empty()
    }
}

/// Whether a file is one that the check reads: Rust or TypeScript source.
pub open spec fn checkable(path: Seq<char>) -> bool {
    ends_with(path, ".rs"@) || ends_with(path, ".ts"@) || ends_with(path, ".tsx"@)
}

/// The checkable paths among lines, in order.
pub open spec fn checkable_paths(ls: Seq<Seq<char>>) -> Seq<Seq<char>>
    decreases ls.len(),
{
    if ls.len() == 0 {
        Seq::empty()
    } else if checkable(ls.last()) {
        checkable_paths(ls.drop_last()).push(ls.last())
    } else {
        checkable_paths(ls.drop_last())
    }
}

/// Whether a path names a file that the check reads (see `checkable`).
pub fn is_checkable(path: &[char]) -> (r: bool)
    ensures
        r == checkable(path@),
{
    let rs = crate::text::chars_of(".rs");
    let ts = crate::text::chars_of(".ts");
    let tsx = crate::text::chars_of(".tsx");
    crate::text::has_suffix(path, rs.as_slice()) || crate::text::has_suffix(path, ts.as_slice())
        || crate::text::has_suffix(path, tsx.as_slice())
}

/// The staged files to check, from the output of `git diff --cached
/// --name-only`: its lines that name Rust or TypeScript files.
pub fn staged_files(listing: &str) -> (r: Vec<String>)
    ensures
        crate::advisory::strings_view(r) == checkable_paths(text_lines(listing@)),
{
    let cs = crate::text::chars_of(listing);
    let pieces = crate::text::split_chars(cs.as_slice(), '\n');
    let ghost pv = pieces@.map_values(|v: Vec<char>| v@);
    let ghost ls = text_lines(listing@);
    let n = pieces.len();
    assert(ls.len() >= n - 1);
    let mut out: Vec<String> = Vec::new();
    let mut i: usize = 0;
    while i < n
        invariant
            i <= n,
            n == pieces.len(),
            n >= 1,
            pv == pieces@.map_values(|v: Vec<char>| v@),
            pv == split(listing@, '\n'),
            ls == text_lines(listing@),
            crate::advisory::strings_view(out) == checkable_paths(ls.take(if i < n { i as int } else if pv[n - 1].len() > 0 { n as int } else { n - 1 })),
        decreases n - i,
    {
        let last = i + 1 == n;
        let piece = pieces[i].as_slice();
        assert(piece@ == pv[i as int]);
        let line: Vec<char> = if !last && piece.len() > 0 && piece[piece.len() - 1] == '\r' {
            crate::text::slice_of(piece, 0, piece.len() - 1)
        } else {
            crate::text::slice_of(piece, 0, piece.len())
        };
        assert(piece@.take(piece.len() as int) == piece@);
        if last && piece.len() == 0 {
            assert(ls.take(n - 1) == ls.take(i as int));
        } else {
            assert(ls[i as int] == line@);
            assert(ls.take(i + 1).drop_last() == ls.take(i as int));
            if is_checkable(line.as_slice()) {
                let l = string_of(line.as_slice());
                out.push(l);
                assert(crate::advisory::strings_view(out) == checkable_paths(ls.take(i as int)).push(line@));
            }
        }
        i = i + 1;
    }
    assert(ls.take(ls.len() as int) == ls);
    out
}

// ---------------------------------------------------------------- findings

/// What the registry tells about one symbol of a checked file.
#[derive(Debug, Clone)]
pub struct Finding {
    pub symbol: String,
    pub advisory: Advisory,
}

/// A finding as plain values: the symbol and the advisory.
pub open spec fn finding_view(f: Finding) -> (Seq<char>, AdvisoryView) {
    (f.symbol@, f.advisory@)
}

/// The plain content of findings.
pub open spec fn findings_view(v: Vec<Finding>) -> Seq<(Seq<char>, AdvisoryView)> {
    v@.map_values(|f: Finding| finding_view(f))
}

/// The findings on a symbol from the advice on it: one per advisory, in order.
pub open spec fn findings_spec(symbol: Seq<char>, advice: Seq<AdvisoryView>) -> Seq<(Seq<char>, AdvisoryView)> {
    advice.map_values(|a: AdvisoryView| (symbol, a))
}

/// The findings on a symbol from the advice on it (see `findings_spec`).
pub fn findings_from(symbol: &str, advice: &Vec<Advisory>) -> (r: Vec<Finding>)
    ensures
        findings_view(r) == findings_spec(symbol@, crate::advisory::advisories_view(*advice)),
{
    let ghost av = crate::advisory::advisories_view(*advice);
    let mut out: Vec<Finding> = Vec::new();
    let mut k: usize = 0;
    while k < advice.len()
        invariant
            k <= advice.len(),
            av == crate::advisory::advisories_view(*advice),
            findings_view(out) == findings_spec(symbol@, av.take(k as int)),
        decreases advice.len() - k,
    {
        let f = Finding { symbol: owned(symbol), advisory: advice[k].copy() };
        let ghost before = findings_view(out);
        out.push(f);
        assert(findings_view(out) == before.push(finding_view(f)));
        assert(av[k as int] == advice@[k as int]@);
        assert(finding_view(f) == (symbol@, av[k as int]));
        assert(av.take(k + 1) == av.take(k as int).push(av[k as int]));
        assert(findings_view(out) =~= findings_spec(symbol@, av.take(k + 1)));
        k = k + 1;
    }
    assert(av.take(advice.len() as int) == av);
    out
}

/// Appends findings.
fn append_findings(dst: &mut Vec<Finding>, src: Vec<Finding>)
    ensures
        findings_view(*final(dst)) == findings_view(*old(dst)) + findings_view(src),
{
    let mut src = src;
    let ghost a = findings_view(*dst);
    let ghost b = findings_view(src);
    dst.append(&mut src);
    assert(findings_view(*dst) =~= a + b);
}

/// The findings on one symbol of a file: its creation advice and, when the
/// file lies in a crate, the advice on that crate's boundaries, each as the
/// registry's checks answer (see `findings_from`); a query that fails adds
/// nothing.
pub fn symbol_findings(conn: &Connection, symbol: &str, file_path: &str, crate_name: &Option<String>) -> (r: Vec<Finding>)
    ensures
        forall|k: int| 0 <= k < r.len() ==> (#[trigger] r@[k]).symbol@ == symbol@,
        exists|c: Seq<AdvisoryView>, b: Seq<AdvisoryView>|
            findings_view(r) == findings_spec(symbol@, c) + findings_spec(symbol@, b) && (c.len() == 0
                || crate::queries::creation_answer(symbol@, file_path@, c)) && (b.len() == 0 || (crate_name is Some
                && crate::queries::boundary_answer(symbol@, crate_name->0@, b))),
{
    let mut out: Vec<Finding> = Vec::new();
    let ghost mut c: Seq<AdvisoryView> = Seq::empty();
    let ghost mut b: Seq<AdvisoryView> = Seq::empty();
    if let Ok(creation) = validate_creation(conn, symbol, file_path) {
        proof {
            c = crate::advisory::advisories_view(creation);
            let w = choose|e: Seq<Vec<crate::db::SqlValue>>, f: Seq<Vec<crate::db::SqlValue>>, l: Seq<crate::models::LinkedSymbol>|
                creation@[0]@ == crate::queries::creation_spec(
                    symbol@,
                    file_path@,
                    crate::queries::named(crate::queries::symbols_of_rows(e), symbol@),
                    crate::queries::symbols_of_rows(f),
                    l,
                );
            assert(c[0] == creation@[0]@);
            assert(c[0] == crate::queries::creation_spec(
                symbol@,
                file_path@,
                crate::queries::named(crate::queries::symbols_of_rows(w.0), symbol@),
                crate::queries::symbols_of_rows(w.1),
                w.2,
            ));
        }
        out = findings_from(symbol, &creation);
    }
    if let Some(cn) = crate_name {
        if let Ok(boundary) = validate_boundary(conn, symbol, cn.as_str()) {
            proof {
                b = crate::advisory::advisories_view(boundary);
            }
            let more = findings_from(symbol, &boundary);
            append_findings(&mut out, more);
        }
    }
    assert(findings_view(out) == findings_spec(symbol@, c) + findings_spec(symbol@, b));
    assert forall|k: int| 0 <= k < out.len() implies (#[trigger] out@[k]).symbol@ == symbol@ by {
        assert(findings_view(out)[k] == finding_view(out@[k]));
        if k < c.len() {
            assert(findings_spec(symbol@, c)[k].0 == symbol@);
        } else {
            assert(findings_spec(symbol@, b)[k - c.len()].0 == symbol@);
        }
    }
    out
}

/// Whether an advisory warns (reuse, or an ambiguous match).
pub open spec fn warns(a: AdvisoryView) -> bool {
    a is ReuseExisting || a is AmbiguousMatch
}

/// Whether an advisory is an error (a boundary violation).
pub open spec fn errs(a: AdvisoryView) -> bool {
    a is BoundaryViolation
}

/// How many findings satisfy a test on their advisory.
pub open spec fn count_findings(fs: Seq<Finding>, which: int) -> nat
    decreases fs.len(),
{
    if fs.len() == 0 {
        0
    } else {
        count_findings(fs.drop_last(), which) + if kind_of(fs.last().advisory@) == which {
            1nat
        } else {
            0nat
        }
    }
}

/// The class of an advisory for a file check: 0 safe, 1 warning, 2 error, 3
/// nothing to say.
pub open spec fn kind_of(a: AdvisoryView) -> int {
    if a is SafeToCreate {
        0
    } else if warns(a) {
        1
    } else if errs(a) {
        2
    } else {
        3
    }
}

/// A count of findings is at most their number.
pub proof fn lemma_count_findings_bound(fs: Seq<Finding>, which: int)
    ensures
        count_findings(fs, which) <= fs.len(),
    decreases fs.len(),
{
    if fs.len() > 0 {
        lemma_count_findings_bound(fs.drop_last(), which);
    }
}

/// The class of an advisory (see `kind_of`).
fn class_of(a: &Advisory) -> (r: u8)
    ensures
        r == kind_of(a@),
{
    match a {
        Advisory::SafeToCreate { .. } => 0,
        Advisory::ReuseExisting { .. } => 1,
        Advisory::AmbiguousMatch { .. } => 1,
        Advisory::BoundaryViolation { .. } => 2,
        _ => 3,
    }
}

// ---------------------------------------------------------------- checking one file

/// The line printed for a finding when one file is checked, if any.
pub open spec fn file_line(f: Finding) -> Option<Seq<char>> {
    match f.advisory@ {
        AdvisoryView::ReuseExisting { existing, .. } => Some(
            "WARNING: "@ + f.symbol@ + " already exists in "@ + qualified(existing) + " (reuse_existing)"@,
        ),
        AdvisoryView::BoundaryViolation { rule, crate_name, .. } => Some(
            "ERROR: "@ + f.symbol@ + " in "@ + crate_name + " violates boundary rule (must_not: "@ + rule + ")"@,
        ),
        AdvisoryView::AmbiguousMatch { candidates } => Some(
            "WARNING: "@ + f.symbol@ + " has "@ + decimal(candidates.len()) + " ambiguous matches"@,
        ),
        _ => None,
    }
}

/// The lines printed for findings when one file is checked, in order.
pub open spec fn file_lines(fs: Seq<Finding>) -> Seq<Seq<char>>
    decreases fs.len(),
{
    if fs.len() == 0 {
        Seq::empty()
    } else {
        match file_line(fs.last()) {
            Some(l) => file_lines(fs.drop_last()).push(l),
            None => file_lines(fs.drop_last()),
        }
    }
}

/// The outcome of checking one file.
#[derive(Debug, Clone)]
pub struct FileReport {
    /// The lines to print, in order.
    pub lines: Vec<String>,
    /// Whether some symbol should reuse or disambiguate.
    pub has_warnings: bool,
    /// Whether some symbol breaks a boundary rule.
    pub has_errors: bool,
    /// How many findings say a symbol is safe to create.
    pub safe_count: usize,
}

/// The decimal text of a count.
fn count_text(n: usize) -> (r: String)
    ensures
        r@ == decimal(n as nat),
{
    let d = decimal_chars(n as u64);
    string_of(d.as_slice())
}

/// The line printed for a finding when one file is checked (see `file_line`).
fn file_line_text(f: &Finding) -> (r: Option<String>)
    ensures
        match r {
            Some(l) => file_line(*f) == Some(l@),
            None => file_line(*f) is None,
        },
{
    match &f.advisory {
        Advisory::ReuseExisting { existing, .. } => {
            let mut s = concat("WARNING: ", f.symbol.as_str());
            s.append(" already exists in ");
            s.append(existing.crate_name.as_str());
            s.append("::");
            s.append(existing.mod_path.as_str());
            s.append(" (reuse_existing)");
            Some(s)
        },
        Advisory::BoundaryViolation { rule, crate_name, .. } => {
            let mut s = concat("ERROR: ", f.symbol.as_str());
            s.append(" in ");
            s.append(crate_name.as_str());
            s.append(" violates boundary rule (must_not: ");
            s.append(rule.as_str());
            s.append(")");
            Some(s)
        },
        Advisory::AmbiguousMatch { candidates } => {
            let mut s = concat("WARNING: ", f.symbol.as_str());
            s.append(" has ");
            let n = count_text(candidates.len());
            s.append(n.as_str());
            s.append(" ambiguous matches");
            Some(s)
        },
        _ => None,
    }
}

/// What checking one file prints and reports: a line per warning or error in
/// the order found, and, when there is neither, `PASS: <file> (<n> symbols,
/// all safe)` with the number of safe findings.
pub fn file_report(file_path: &str, findings: &Vec<Finding>) -> (r: FileReport)
    ensures
        r.has_warnings == (count_findings(findings@, 1) > 0),
        r.has_errors == (count_findings(findings@, 2) > 0),
        r.safe_count == count_findings(findings@, 0),
        crate::advisory::strings_view(r.lines) == file_lines(findings@) + if !r.has_warnings && !r.has_errors {
            seq!["PASS: "@ + file_path@ + " ("@ + decimal(r.safe_count as nat) + " symbols, all safe)"@]
        } else {
            Seq::empty()
        },
{
    let mut lines: Vec<String> = Vec::new();
    let mut warnings: usize = 0;
    let mut errors: usize = 0;
    let mut safe: usize = 0;
    let mut i: usize = 0;
    while i < findings.len()
        invariant
            i <= findings.len(),
            warnings == count_findings(findings@.take(i as int), 1),
            errors == count_findings(findings@.take(i as int), 2),
            safe == count_findings(findings@.take(i as int), 0),
            crate::advisory::strings_view(lines) == file_lines(findings@.take(i as int)),
        decreases findings.len() - i,
    {
        assert(findings@.take(i + 1).drop_last() == findings@.take(i as int));
        assert(findings@.take(i + 1).last() == findings@[i as int]);
        proof {
            lemma_count_findings_bound(findings@.take(i as int), 0);
            lemma_count_findings_bound(findings@.take(i as int), 1);
            lemma_count_findings_bound(findings@.take(i as int), 2);
        }
        let c = class_of(&findings[i].advisory);
        if c == 0 {
            safe = safe + 1;
        } else if c == 1 {
            warnings = warnings + 1;
        } else if c == 2 {
            errors = errors + 1;
        }
        match file_line_text(&findings[i]) {
            Some(l) => {
                lines.push(l);
                assert(crate::advisory::strings_view(lines) == file_lines(findings@.take(i as int)).push(l@));
            },
            None => {},
        }
        i = i + 1;
    }
    assert(findings@.take(findings.len() as int) == findings@);
    let has_warnings = warnings > 0;
    let has_errors = errors > 0;
    if !has_warnings && !has_errors {
        let mut s = concat("PASS: ", file_path);
        s.append(" (");
        let n = count_text(safe);
        s.append(n.as_str());
        s.append(" symbols, all safe)");
        let ghost before = crate::advisory::strings_view(lines);
        lines.push(s);
        assert(crate::advisory::strings_view(lines) == before.push(s@));
    } else {
        assert(crate::advisory::strings_view(lines) == crate::advisory::strings_view(lines) + Seq::<Seq<char>>::empty());
    }
    FileReport { lines, has_warnings, has_errors, safe_count: safe }
}

/// The exit code of a check: 2 when there are errors, else 1 when there are
/// warnings, else 0.
pub fn exit_code(has_errors: bool, has_warnings: bool) -> (r: i32)
    ensures
        r == if has_errors {
            2i32
        } else if has_warnings {
            1i32
        } else {
            0i32
        },
{
    if has_errors {
        2
    } else if has_warnings {
        1
    } else {
        0
    }
}

// ---------------------------------------------------------------- checking staged files

/// The line printed for a finding when staged files are checked, if any.
pub open spec fn changed_line(f: Finding) -> Option<Seq<char>> {
    match f.advisory@ {
        AdvisoryView::ReuseExisting { existing, .. } => Some(
            "  - "@ + f.symbol@ + ": reuse_existing (already in "@ + qualified(existing) + ")"@,
        ),
        AdvisoryView::BoundaryViolation { rule, .. } => Some("  - "@ + f.symbol@ + ": boundary_violation ("@ + rule + ")"@),
        AdvisoryView::AmbiguousMatch { .. } => Some("  - "@ + f.symbol@ + ": ambiguous_match"@),
        _ => None,
    }
}

/// The lines printed for findings when staged files are checked, in order.
pub open spec fn changed_lines(fs: Seq<Finding>) -> Seq<Seq<char>>
    decreases fs.len(),
{
    if fs.len() == 0 {
        Seq::empty()
    } else {
        match changed_line(fs.last()) {
            Some(l) => changed_lines(fs.drop_last()).push(l),
            None => changed_lines(fs.drop_last()),
        }
    }
}

/// The verdict printed for a staged file: `FAIL` with errors, else `WARN`
/// with warnings, else `PASS` with the number of safe findings.
pub open spec fn verdict_line(file: Seq<char>, errors: nat, warnings: nat, safe: nat) -> Seq<char> {
    if errors > 0 {
        "FAIL: "@ + file
    } else if warnings > 0 {
        "WARN: "@ + file
    } else {
        "PASS: "@ + file + " ("@ + decimal(safe) + " new symbols, all safe)"@
    }
}

/// The outcome of checking one staged file.
#[derive(Debug, Clone)]
pub struct ChangedFileReport {
    /// The lines to print, in order.
    pub lines: Vec<String>,
    /// The number of warnings.
    pub warnings: usize,
    /// The number of errors.
    pub errors: usize,
}

/// The line printed for a finding when staged files are checked (see
/// `changed_line`).
fn changed_line_text(f: &Finding) -> (r: Option<String>)
    ensures
        match r {
            Some(l) => changed_line(*f) == Some(l@),
            None => changed_line(*f) is None,
        },
{
    match &f.advisory {
        Advisory::ReuseExisting { existing, .. } => {
            let mut s = concat("  - ", f.symbol.as_str());
            s.append(": reuse_existing (already in ");
            s.append(existing.crate_name.as_str());
            s.append("::");
            s.append(existing.mod_path.as_str());
            s.append(")");
            Some(s)
        },
        Advisory::BoundaryViolation { rule, .. } => {
            let mut s = concat("  - ", f.symbol.as_str());
            s.append(": boundary_violation (");
            s.append(rule.as_str());
            s.append(")");
            Some(s)
        },
        Advisory::AmbiguousMatch { .. } => {
            let mut s = concat("  - ", f.symbol.as_str());
            s.append(": ambiguous_match");
            Some(s)
        },
        _ => None,
    }
}

/// What checking one staged file prints and counts: a line per warning or
/// error in the order found, then the file's verdict.
pub fn changed_file_report(file_path: &str, findings: &Vec<Finding>) -> (r: ChangedFileReport)
    ensures
        r.warnings == count_findings(findings@, 1),
        r.errors == count_findings(findings@, 2),
        crate::advisory::strings_view(r.lines) == changed_lines(findings@).push(
            verdict_line(file_path@, r.errors as nat, r.warnings as nat, count_findings(findings@, 0)),
        ),
{
    let mut lines: Vec<String> = Vec::new();
    let mut warnings: usize = 0;
    let mut errors: usize = 0;
    let mut safe: usize = 0;
    let mut i: usize = 0;
    while i < findings.len()
        invariant
            i <= findings.len(),
            warnings == count_findings(findings@.take(i as int), 1),
            errors == count_findings(findings@.take(i as int), 2),
            safe == count_findings(findings@.take(i as int), 0),
            crate::advisory::strings_view(lines) == changed_lines(findings@.take(i as int)),
        decreases findings.len() - i,
    {
        assert(findings@.take(i + 1).drop_last() == findings@.take(i as int));
        assert(findings@.take(i + 1).last() == findings@[i as int]);
        proof {
            lemma_count_findings_bound(findings@.take(i as int), 0);
            lemma_count_findings_bound(findings@.take(i as int), 1);
            lemma_count_findings_bound(findings@.take(i as int), 2);
        }
        let c = class_of(&findings[i].advisory);
        if c == 0 {
            safe = safe + 1;
        } else if c == 1 {
            warnings = warnings + 1;
        } else if c == 2 {
            errors = errors + 1;
        }
        match changed_line_text(&findings[i]) {
            Some(l) => {
                lines.push(l);
                assert(crate::advisory::strings_view(lines) == changed_lines(findings@.take(i as int)).push(l@));
            },
            None => {},
        }
        i = i + 1;
    }
    assert(findings@.take(findings.len() as int) == findings@);
    let verdict = if errors > 0 {
        concat("FAIL: ", file_path)
    } else if warnings > 0 {
        concat("WARN: ", file_path)
    } else {
        let mut s = concat("PASS: ", file_path);
        s.append(" (");
        let n = count_text(safe);
        s.append(n.as_str());
        s.append(" new symbols, all safe)");
        s
    };
    let ghost before = crate::advisory::strings_view(lines);
    lines.push(verdict);
    assert(crate::advisory::strings_view(lines) == before.push(verdict@));
    ChangedFileReport { lines, warnings, errors }
}

/// The running totals of errors and warnings after one more staged file: a
/// failing file's errors count twice, as do the warnings of a file that only
/// warns; counts stop at the largest `usize`.
pub fn add_file_totals(totals: (usize, usize), file_errors: usize, file_warnings: usize) -> (r: (usize, usize))
    ensures
        r.0 == crate::queries::capped(
            totals.0 as int + if file_errors > 0 { 2 * (file_errors as int) } else { file_errors as int },
        ),
        r.1 == crate::queries::capped(
            totals.1 as int + if file_errors == 0 && file_warnings > 0 {
                2 * (file_warnings as int)
            } else {
                file_warnings as int
            },
        ),
{
    let (mut errors, mut warnings) = totals;
    if file_errors > 0 {
        errors = errors.saturating_add(file_errors);
    } else if file_warnings > 0 {
        warnings = warnings.saturating_add(file_warnings);
    }
    errors = errors.saturating_add(file_errors);
    warnings = warnings.saturating_add(file_warnings);
    (errors, warnings)
}

/// The closing line of a check of staged files.
pub fn changed_summary(files: usize, errors: usize, warnings: usize) -> (r: String)
    ensures
        r@ == "\nChecked "@ + decimal(files as nat) + " files: "@ + decimal(errors as nat) + " errors, "@ + decimal(
            warnings as nat,
        ) + " warnings"@,
{
    let mut s = owned("\nChecked ");
    let f = count_text(files);
    s.append(f.as_str());
    s.append(" files: ");
    let e = count_text(errors);
    s.append(e.as_str());
    s.append(" errors, ");
    let w = count_text(warnings);
    s.append(w.as_str());
    s.append(" warnings");
    s
}

} // verus!

//! Reading structured plans: lines such as
//! `CREATE: fn calculate_settlement_fee in: crates/trading/src/fees.rs`.
use vstd::prelude::*;

use crate::advisory::{PlannedAction, PlannedActionView};
use crate::text::{
    chars_of, find, find_from, has_prefix, owned, slice_of, split, split_chars, starts_with, string_of,
    trim, trim_chars,
};

verus! {

/// The crate named by a path of the form `crates/<name>/...`.
pub open spec fn crate_of_path(t: Seq<char>) -> Option<Seq<char>> {
    if starts_with(t, "crates/"@) {
        let rest = t.skip("crates/"@.len() as int);
        match find_from(rest, seq!['/'], 0) {
            Some(i) => Some(rest.take(i)),
            None => None,
        }
    } else {
        None
    }
}

/// Derives the crate name from a target path (`crates/trading/src/fees.rs` gives `trading`).
pub fn extract_crate_name(target: &str) -> (r: Option<String>)
    ensures
        opt_chars(r) == crate_of_path(target@),
{
    let t = chars_of(target);
    let pre = chars_of("crates/");
    if !has_prefix(t.as_slice(), pre.as_slice()) {
        return None;
    }
    let rest = slice_of(t.as_slice(), pre.len(), t.len());
    let slash = chars_of("/");
    proof {
        reveal_strlit("/");
        assert(slash@ == seq!['/']);
    }
    match find(rest.as_slice(), slash.as_slice()) {
        Some(i) => {
            let name = slice_of(rest.as_slice(), 0, i);
            Some(string_of(name.as_slice()))
        },
        None => None,
    }
}

/// The characters of an optional string.
pub open spec fn opt_chars(o: Option<String>) -> Option<Seq<char>> {
    match o {
        Some(s) => Some(s@),
        None => None,
    }
}

/// Whether `c` equals the upper-case ASCII character `u` or its lower-case form.
pub open spec fn same_letter(c: char, u: char) -> bool {
    c == u || ('A' <= u <= 'Z' && c as u32 == u as u32 + 32)
}

/// Whether `t` begins with `p`, ASCII letters compared without regard to case.
pub open spec fn starts_with_ci(t: Seq<char>, p: Seq<char>) -> bool {
    p.len() <= t.len() && forall|k: int| 0 <= k < p.len() ==> same_letter(#[trigger] t[k], p[k])
}

/// `r` without one leading kind word (`fn `, `struct `, `enum `, `trait `, `type `, `const `).
pub open spec fn strip_kind(r: Seq<char>) -> Seq<char> {
    if starts_with(r, "fn "@) {
        r.skip("fn "@.len() as int)
    } else if starts_with(r, "struct "@) {
        r.skip("struct "@.len() as int)
    } else if starts_with(r, "enum "@) {
        r.skip("enum "@.len() as int)
    } else if starts_with(r, "trait "@) {
        r.skip("trait "@.len() as int)
    } else if starts_with(r, "type "@) {
        r.skip("type "@.len() as int)
    } else if starts_with(r, "const "@) {
        r.skip("const "@.len() as int)
    } else {
        r
    }
}

/// The symbol and target of `r`, split at the first ` in: `, else at the first ` in `.
pub open spec fn split_target(r: Seq<char>) -> (Seq<char>, Seq<char>) {
    match find_from(r, " in: "@, 0) {
        Some(i) => (trim(r.take(i)), trim(r.skip(i + " in: "@.len()))),
        None => match find_from(r, " in "@, 0) {
            Some(i) => (trim(r.take(i)), trim(r.skip(i + " in "@.len()))),
            None => (r, Seq::empty()),
        },
    }
}

/// The planned action that one line of a plan states, if any: blank lines and
/// lines that start with `#` or `//` are comments, and a line states an action
/// when it starts with `CREATE:` or `MODIFY:` in any case and names a symbol.
pub open spec fn plan_line(line: Seq<char>) -> Option<PlannedActionView> {
    let t = trim(line);
    if t.len() == 0 || starts_with(t, "#"@) || starts_with(t, "//"@) {
        None
    } else {
        let action = if starts_with_ci(t, "CREATE:"@) {
            Some("create"@)
        } else if starts_with_ci(t, "MODIFY:"@) {
            Some("modify"@)
        } else {
            None
        };
        match action {
            None => None,
            Some(a) => {
                let rest = trim(strip_kind(trim(t.skip(7))));
                let (symbol, target) = split_target(rest);
                if symbol.len() == 0 {
                    None
                } else {
                    Some(
                        PlannedActionView {
                            action: a,
                            symbol,
                            target,
                            crate_name: crate_of_path(target),
                            kind: None,
                        },
                    )
                }
            },
        }
    }
}

/// The planned actions stated by a sequence of lines, in order.
pub open spec fn plan_lines(lines: Seq<Seq<char>>) -> Seq<PlannedActionView>
    decreases lines.len(),
{
    if lines.len() == 0 {
        Seq::empty()
    } else {
        let prev = plan_lines(lines.drop_last());
        match plan_line(lines.last()) {
            Some(a) => prev.push(a),
            None => prev,
        }
    }
}

/// The planned actions stated by a plan text, one line at a time.
pub open spec fn plan_of(content: Seq<char>) -> Seq<PlannedActionView> {
    plan_lines(split(content, '\n'))
}

/// Whether `t` begins with `p`, ASCII letters compared without regard to case.
fn has_prefix_ci(t: &[char], p: &[char]) -> (r: bool)
    ensures
        r == starts_with_ci(t@, p@),
{
    if p.len() > t.len() {
        return false;
    }
    let mut k: usize = 0;
    while k < p.len()
        invariant
            p.len() <= t.len(),
            k <= p.len(),
            forall|m: int| 0 <= m < k ==> same_letter(#[trigger] t@[m], p@[m]),
        decreases p.len() - k,
    {
        let c = t[k];
        let u = p[k];
        let same = c == u || ('A' <= u && u <= 'Z' && (c as u32) == (u as u32) + 32);
        if !same {
            return false;
        }
        k = k + 1;
    }
    true
}

/// `r` without one leading kind word.
fn strip_kind_chars(r: &[char]) -> (out: Vec<char>)
    ensures
        out@ == strip_kind(r@),
{
    let f = chars_of("fn ");
    if has_prefix(r, f.as_slice()) {
        return slice_of(r, f.len(), r.len());
    }
    let s = chars_of("struct ");
    if has_prefix(r, s.as_slice()) {
        return slice_of(r, s.len(), r.len());
    }
    let e = chars_of("enum ");
    if has_prefix(r, e.as_slice()) {
        return slice_of(r, e.len(), r.len());
    }
    let t = chars_of("trait ");
    if has_prefix(r, t.as_slice()) {
        return slice_of(r, t.len(), r.len());
    }
    let y = chars_of("type ");
    if has_prefix(r, y.as_slice()) {
        return slice_of(r, y.len(), r.len());
    }
    let c = chars_of("const ");
    if has_prefix(r, c.as_slice()) {
        return slice_of(r, c.len(), r.len());
    }
    slice_of(r, 0, r.len())
}

/// The symbol and target of `r`.
fn split_target_chars(r: &[char]) -> (out: (Vec<char>, Vec<char>))
    ensures
        (out.0@, out.1@) == split_target(r@),
{
    let sep1 = chars_of(" in: ");
    match find(r, sep1.as_slice()) {
        Some(i) => {
            let a = slice_of(r, 0, i);
            let b = slice_of(r, i + sep1.len(), r.len());
            return (trim_chars(a.as_slice()), trim_chars(b.as_slice()));
        },
        None => {},
    }
    let sep2 = chars_of(" in ");
    match find(r, sep2.as_slice()) {
        Some(i) => {
            let a = slice_of(r, 0, i);
            let b = slice_of(r, i + sep2.len(), r.len());
            (trim_chars(a.as_slice()), trim_chars(b.as_slice()))
        },
        None => (slice_of(r, 0, r.len()), Vec::new()),
    }
}

/// The planned action that one line of a plan states, if any.
pub fn parse_plan_line(line: &[char]) -> (r: Option<PlannedAction>)
    ensures
        match r {
            Some(a) => plan_line(line@) == Some(a@),
            None => plan_line(line@) is None,
        },
{
    let t = trim_chars(line);
    let hash = chars_of("#");
    let slashes = chars_of("//");
    if t.len() == 0 || has_prefix(t.as_slice(), hash.as_slice()) || has_prefix(
        t.as_slice(),
        slashes.as_slice(),
    ) {
        return None;
    }
    let create = chars_of("CREATE:");
    let modify = chars_of("MODIFY:");
    proof {
        reveal_strlit("CREATE:");
        reveal_strlit("MODIFY:");
    }
    let action = if has_prefix_ci(t.as_slice(), create.as_slice()) {
        owned("create")
    } else if has_prefix_ci(t.as_slice(), modify.as_slice()) {
        owned("modify")
    } else {
        return None;
    };
    let after = slice_of(t.as_slice(), 7, t.len());
    let rest0 = trim_chars(after.as_slice());
    let stripped = strip_kind_chars(rest0.as_slice());
    let rest = trim_chars(stripped.as_slice());
    let (symbol, target) = split_target_chars(rest.as_slice());
    if symbol.len() == 0 {
        return None;
    }
    let target_s = string_of(target.as_slice());
    let crate_name = extract_crate_name(target_s.as_str());
    Some(
        PlannedAction {
            action,
            symbol: string_of(symbol.as_slice()),
            target: target_s,
            crate_name,
            kind: None,
        },
    )
}

/// Parses a structured plan: one action per line of the form
/// `CREATE: fn calculate_settlement_fee in: crates/trading/src/fees.rs` or
/// `MODIFY: ...`; other lines are skipped.
pub fn parse_plan(content: &str) -> (r: Result<Vec<PlannedAction>, String>)
    ensures
        r is Ok,
        r matches Ok(v) ==> v@.map_values(|a: PlannedAction| a@) == plan_of(content@),
{
    let text = chars_of(content);
    let lines = split_chars(text.as_slice(), '\n');
    let ghost ls = lines@.map_values(|v: Vec<char>| v@);
    let mut out: Vec<PlannedAction> = Vec::new();
    let mut i: usize = 0;
    while i < lines.len()
        invariant
            i <= lines.len(),
            ls == lines@.map_values(|v: Vec<char>| v@),
            ls == split(content@, '\n'),
            out@.map_values(|a: PlannedAction| a@) == plan_lines(ls.take(i as int)),
        decreases lines.len() - i,
    {
        let ghost before = out@.map_values(|a: PlannedAction| a@);
        assert(ls.take(i + 1).drop_last() == ls.take(i as int));
        assert(ls.take(i + 1).last() == lines@[i as int]@);
        match parse_plan_line(lines[i].as_slice()) {
            Some(a) => {
                out.push(a);
                assert(out@.map_values(|a: PlannedAction| a@) == before.push(a@));
            },
            None => {},
        }
        i = i + 1;
    }
    assert(ls.take(lines.len() as int) == ls);
    Ok(out)
}

/// Parses a structured plan (see [`parse_plan`]).
pub fn parse_plan_public(content: &str) -> (r: Result<Vec<PlannedAction>, String>)
    ensures
        r is Ok,
        r matches Ok(v) ==> v@.map_values(|a: PlannedAction| a@) == plan_of(content@),
{
    parse_plan(content)
}

} // verus!

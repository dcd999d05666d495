//! Checking `seed.sql` before it runs: comments are removed, and only
//! `INSERT INTO ownership_rules ...` statements are let through.
use vstd::prelude::*;

use crate::text::{chars_of, concat, has_prefix, is_ws, split, split_chars, starts_with, string_of, trim, trim_chars};
use crate::time::{decimal, decimal_chars};
use crate::unicode::{str_to_uppercase, uppercase};

verus! {

/// The index of the first `c` at or after `k` in `s`, or `s.len()`.
pub open spec fn next_index_of(s: Seq<char>, c: char, k: int) -> int
    decreases s.len() - k,
{
    if k < 0 || k >= s.len() {
        s.len() as int
    } else if s[k] == c {
        k
    } else {
        next_index_of(s, c, k + 1)
    }
}

/// Where the scan for the end of a block comment stops: the first `j` at or
/// after `k` with `*/` at `j`, or the last index.
pub open spec fn block_scan(s: Seq<char>, j: int) -> int
    decreases s.len() - j,
{
    if j >= 0 && j + 1 < s.len() && !(s[j] == '*' && s[j + 1] == '/') {
        block_scan(s, j + 1)
    } else {
        j
    }
}

/// `s` from index `i` on with SQL comments removed: `--` up to the end of the
/// line (the line break kept) and `/* ... */`, text between single quotes kept
/// as it is.
pub open spec fn strip_from(s: Seq<char>, i: int) -> Seq<char>
    decreases s.len() - i,
{
    if i < 0 || i >= s.len() {
        Seq::empty()
    } else if s[i] == '\'' {
        let q = next_index_of(s, '\'', i + 1);
        if q >= s.len() || q < i {
            s.subrange(i, s.len() as int)
        } else {
            s.subrange(i, q + 1) + strip_from(s, q + 1)
        }
    } else if s[i] == '-' && i + 1 < s.len() && s[i + 1] == '-' {
        let n = next_index_of(s, '\n', i);
        if n <= i || n > s.len() {
            Seq::empty()
        } else {
            strip_from(s, n)
        }
    } else if s[i] == '/' && i + 1 < s.len() && s[i + 1] == '*' {
        let e = block_scan(s, i + 2);
        if e + 2 <= i || e + 2 > s.len() {
            Seq::empty()
        } else {
            strip_from(s, e + 2)
        }
    } else {
        seq![s[i]] + strip_from(s, i + 1)
    }
}

proof fn lemma_next_index_of(s: Seq<char>, c: char, k: int)
    requires
        0 <= k,
    ensures
        k <= next_index_of(s, c, k) <= s.len() || (k > s.len() && next_index_of(s, c, k) == s.len()),
        next_index_of(s, c, k) < s.len() ==> s[next_index_of(s, c, k)] == c,
    decreases s.len() - k,
{
    if k < s.len() && s[k] != c {
        lemma_next_index_of(s, c, k + 1);
    }
}

proof fn lemma_block_scan(s: Seq<char>, j: int)
    requires
        0 <= j,
    ensures
        block_scan(s, j) >= j,
    decreases s.len() - j,
{
    if j + 1 < s.len() && !(s[j] == '*' && s[j + 1] == '/') {
        lemma_block_scan(s, j + 1);
    }
}

/// Removes SQL comments (`--` line comments and `/* ... */` block comments)
/// from a fragment, keeping string literals as they are.
pub fn strip_comments(sql: &str) -> (r: String)
    ensures
        r@ == strip_from(sql@, 0),
{
    let c = chars_of(sql);
    let len = c.len();
    let mut out: Vec<char> = Vec::new();
    let mut i: usize = 0;
    while i < len
        invariant
            len == c.len(),
            c@ == sql@,
            out@ + strip_from(c@, i as int) == strip_from(c@, 0),
        decreases len - i,
    {
        if c[i] == '\'' {
            let ghost start = i as int;
            let ghost before = out@;
            out.push(c[i]);
            i = i + 1;
            assert(out@ =~= before + c@.subrange(start, i as int));
            let mut closed = false;
            while i < len
                invariant_except_break
                    !closed,
                    next_index_of(c@, '\'', start + 1) == next_index_of(c@, '\'', i as int),
                invariant
                    len == c.len(),
                    0 <= start < i <= len,
                    c@[start] == '\'',
                    out@ == before + c@.subrange(start, i as int),
                    before + strip_from(c@, start) == strip_from(c@, 0),
                ensures
                    closed ==> (i as int == next_index_of(c@, '\'', start + 1) + 1 && i <= len),
                    !closed ==> (i == len && next_index_of(c@, '\'', start + 1) == len),
                    out@ == before + c@.subrange(start, i as int),
                    before + strip_from(c@, start) == strip_from(c@, 0),
                    start < i,
                decreases len - i,
            {
                let ghost prev = out@;
                out.push(c[i]);
                assert(c@.subrange(start, i + 1) =~= c@.subrange(start, i as int).push(c@[i as int]));
                assert(out@ =~= before + c@.subrange(start, i + 1));
                if c[i] == '\'' {
                    i = i + 1;
                    closed = true;
                    break;
                }
                i = i + 1;
            }
            proof {
                lemma_next_index_of(c@, '\'', start + 1);
                if !closed {
                    assert(strip_from(c@, start) == c@.subrange(start, len as int));
                    assert(strip_from(c@, i as int) == Seq::<char>::empty());
                    assert(out@ + strip_from(c@, i as int) == out@);
                } else {
                    assert(out@ + strip_from(c@, i as int) == before + (c@.subrange(start, i as int) + strip_from(c@, i as int)));
                }
            }
            continue;
        }
        if c[i] == '-' && i + 1 < len && c[i + 1] == '-' {
            let ghost start = i as int;
            while i < len && c[i] != '\n'
                invariant
                    len == c.len(),
                    start <= i <= len,
                    next_index_of(c@, '\n', start) == next_index_of(c@, '\n', i as int),
                decreases len - i,
            {
                i = i + 1;
            }
            proof {
                lemma_next_index_of(c@, '\n', start);
                assert(next_index_of(c@, '\n', i as int) == i);
                assert(i as int > start);
            }
            continue;
        }
        if c[i] == '/' && i + 1 < len && c[i + 1] == '*' {
            let ghost start = i as int;
            i = i + 2;
            while i < len - 1 && !(c[i] == '*' && c[i + 1] == '/')
                invariant
                    len == c.len(),
                    start + 1 < len,
                    len >= 2,
                    start + 2 <= i,
                    i <= len,
                    block_scan(c@, start + 2) == block_scan(c@, i as int),
                decreases len + 1 - i,
            {
                i = i + 1;
            }
            proof {
                assert(block_scan(c@, i as int) == i);
            }
            if i >= len - 1 {
                assert(strip_from(c@, start) == Seq::<char>::empty());
                i = len;
            } else {
                i = i + 2;
            }
            continue;
        }
        let ghost before = out@;
        out.push(c[i]);
        assert(out@ + strip_from(c@, i + 1) == before + (seq![c@[i as int]] + strip_from(c@, i + 1)));
        i = i + 1;
    }
    string_of(out.as_slice())
}

// ---------------------------------------------------------------- statements

/// The non-empty statements of a seed file: the pieces between `;`, each with
/// comments removed and trimmed.
pub open spec fn statements_of(pieces: Seq<Seq<char>>) -> Seq<Seq<char>>
    decreases pieces.len(),
{
    if pieces.len() == 0 {
        Seq::empty()
    } else {
        let t = trim(strip_from(pieces.last(), 0));
        if t.len() == 0 {
            statements_of(pieces.drop_last())
        } else {
            statements_of(pieces.drop_last()).push(t)
        }
    }
}

/// The non-empty statements of a seed file.
pub open spec fn seed_statements(sql: Seq<char>) -> Seq<Seq<char>> {
    statements_of(split(sql, ';'))
}

/// The whitespace-separated words of `rest`, the word under construction being `cur`.
pub open spec fn words_acc(cur: Seq<char>, rest: Seq<char>) -> Seq<Seq<char>>
    decreases rest.len(),
{
    if rest.len() == 0 {
        if cur.len() == 0 {
            Seq::empty()
        } else {
            seq![cur]
        }
    } else if is_ws(rest[0]) {
        if cur.len() == 0 {
            words_acc(Seq::empty(), rest.drop_first())
        } else {
            seq![cur] + words_acc(Seq::empty(), rest.drop_first())
        }
    } else {
        words_acc(cur.push(rest[0]), rest.drop_first())
    }
}

/// The whitespace-separated words of `s` (`str::split_whitespace`).
pub open spec fn words(s: Seq<char>) -> Seq<Seq<char>> {
    words_acc(Seq::empty(), s)
}

/// The words joined with single spaces.
pub open spec fn join_spaced(ws: Seq<Seq<char>>) -> Seq<char>
    decreases ws.len(),
{
    if ws.len() == 0 {
        Seq::empty()
    } else if ws.len() == 1 {
        ws[0]
    } else {
        join_spaced(ws.drop_last()) + seq![' '] + ws.last()
    }
}

/// Whether text names exactly the table `OWNERSHIP_RULES` after `INSERT
/// INTO`: the words begin with `INSERT INTO OWNERSHIP_RULES`, and the table
/// name ends there (the text ends, or a space or `(` follows).
pub open spec fn inserts_into_rules(j: Seq<char>) -> bool {
    let p = "INSERT INTO OWNERSHIP_RULES"@;
    starts_with(j, p) && (j.len() == p.len() || j[p.len() as int] == ' ' || j[p.len() as int] == '(')
}

/// Whether a seed statement may run: its upper-case form begins with the word
/// `INSERT`, and its words joined by single spaces insert into the table
/// `OWNERSHIP_RULES` and no other (see `inserts_into_rules`).
pub open spec fn seed_allowed(stmt: Seq<char>) -> bool {
    let ws = words(uppercase(stmt));
    ws.len() > 0 && ws[0] == "INSERT"@ && inserts_into_rules(join_spaced(ws))
}

/// The statements that a seed check refuses, in order.
pub open spec fn rejected_of(stmts: Seq<Seq<char>>) -> Seq<Seq<char>>
    decreases stmts.len(),
{
    if stmts.len() == 0 {
        Seq::empty()
    } else if seed_allowed(stmts.last()) {
        rejected_of(stmts.drop_last())
    } else {
        rejected_of(stmts.drop_last()).push(stmts.last())
    }
}

/// The non-empty statements of a seed file, comments removed.
pub fn seed_statement_list(sql: &str) -> (r: Vec<String>)
    ensures
        r@.map_values(|x: String| x@) == seed_statements(sql@),
{
    let all = chars_of(sql);
    let pieces = split_chars(all.as_slice(), ';');
    let ghost ps = pieces@.map_values(|v: Vec<char>| v@);
    let mut out: Vec<String> = Vec::new();
    let mut i: usize = 0;
    while i < pieces.len()
        invariant
            i <= pieces.len(),
            ps == pieces@.map_values(|v: Vec<char>| v@),
            ps == split(sql@, ';'),
            out@.map_values(|x: String| x@) == statements_of(ps.take(i as int)),
        decreases pieces.len() - i,
    {
        assert(ps.take(i + 1).drop_last() == ps.take(i as int));
        assert(ps.take(i + 1).last() == pieces@[i as int]@);
        let raw = string_of(pieces[i].as_slice());
        let stripped = strip_comments(raw.as_str());
        let sc = chars_of(stripped.as_str());
        let t = trim_chars(sc.as_slice());
        if t.len() != 0 {
            let ghost before = out@.map_values(|x: String| x@);
            let ts = string_of(t.as_slice());
            out.push(ts);
            assert(out@.map_values(|x: String| x@) == before.push(ts@));
        }
        i = i + 1;
    }
    assert(ps.take(pieces.len() as int) == ps);
    out
}

/// The whitespace-separated words of `s`.
pub(crate) fn words_of(s: &[char]) -> (r: Vec<Vec<char>>)
    ensures
        r@.map_values(|v: Vec<char>| v@) == words(s@),
{
    let mut out: Vec<Vec<char>> = Vec::new();
    let mut cur: Vec<char> = Vec::new();
    let mut i: usize = 0;
    assert(s@.skip(0) == s@);
    while i < s.len()
        invariant
            i <= s.len(),
            out@.map_values(|v: Vec<char>| v@) + words_acc(cur@, s@.skip(i as int)) == words(s@),
        decreases s.len() - i,
    {
        let c = s[i];
        let ghost rest = s@.skip(i as int);
        assert(rest.drop_first() == s@.skip(i + 1));
        assert(rest[0] == c);
        if crate::text::char_is_whitespace(c) {
            if cur.len() != 0 {
                let ghost before = out@.map_values(|v: Vec<char>| v@);
                let piece = cur;
                cur = Vec::new();
                out.push(piece);
                assert(out@.map_values(|v: Vec<char>| v@) == before.push(piece@));
                assert(before.push(piece@) + words_acc(cur@, s@.skip(i + 1)) == before + (seq![piece@] + words_acc(Seq::empty(), s@.skip(i + 1))));
            } else {
                assert(cur@ == Seq::<char>::empty());
            }
        } else {
            cur.push(c);
        }
        i = i + 1;
    }
    if cur.len() != 0 {
        let ghost before = out@.map_values(|v: Vec<char>| v@);
        out.push(cur);
        assert(out@.map_values(|v: Vec<char>| v@) == before.push(cur@));
    } else {
        assert(out@.map_values(|v: Vec<char>| v@) + Seq::<Seq<char>>::empty() == out@.map_values(|v: Vec<char>| v@));
    }
    out
}

/// The words joined with single spaces.
fn join_words(ws: &Vec<Vec<char>>) -> (r: Vec<char>)
    ensures
        r@ == join_spaced(ws@.map_values(|v: Vec<char>| v@)),
{
    let ghost wv = ws@.map_values(|v: Vec<char>| v@);
    let mut out: Vec<char> = Vec::new();
    let mut i: usize = 0;
    while i < ws.len()
        invariant
            i <= ws.len(),
            wv == ws@.map_values(|v: Vec<char>| v@),
            out@ == join_spaced(wv.take(i as int)),
        decreases ws.len() - i,
    {
        assert(wv.take(i + 1).drop_last() == wv.take(i as int));
        assert(wv.take(i + 1).last() == ws@[i as int]@);
        let w = ws[i].as_slice();
        if i > 0 {
            out.push(' ');
        }
        let ghost before = out@;
        let mut k: usize = 0;
        while k < w.len()
            invariant
                k <= w.len(),
                out@ == before + w@.take(k as int),
            decreases w.len() - k,
        {
            out.push(w[k]);
            k = k + 1;
            assert(out@ =~= before + w@.take(k as int));
        }
        assert(w@.take(w.len() as int) == w@);
        proof {
            if i == 0 {
                assert(wv.take(1) =~= seq![wv[0]]);
            }
        }
        i = i + 1;
    }
    assert(wv.take(ws.len() as int) == wv);
    out
}

/// Whether a seed statement may run (an `INSERT INTO ownership_rules`).
pub fn seed_statement_allowed(stmt: &str) -> (r: bool)
    ensures
        r == seed_allowed(stmt@),
{
    let up = str_to_uppercase(stmt);
    let uc = chars_of(up.as_str());
    let ws = words_of(uc.as_slice());
    let ghost wv = ws@.map_values(|v: Vec<char>| v@);
    if ws.len() == 0 {
        return false;
    }
    assert(wv[0] == ws@[0]@);
    let insert = chars_of("INSERT");
    if !crate::text::chars_eq(ws[0].as_slice(), insert.as_slice()) {
        return false;
    }
    let joined = join_words(&ws);
    let pre = chars_of("INSERT INTO OWNERSHIP_RULES");
    if !has_prefix(joined.as_slice(), pre.as_slice()) {
        return false;
    }
    let n = pre.len();
    n == joined.len() || joined[n] == ' ' || joined[n] == '('
}

/// The statements of a seed file that may not run, in order.
pub fn seed_rejections(sql: &str) -> (r: Vec<String>)
    ensures
        r@.map_values(|x: String| x@) == rejected_of(seed_statements(sql@)),
{
    let stmts = seed_statement_list(sql);
    let ghost sv = stmts@.map_values(|x: String| x@);
    let mut out: Vec<String> = Vec::new();
    let mut i: usize = 0;
    while i < stmts.len()
        invariant
            i <= stmts.len(),
            sv == stmts@.map_values(|x: String| x@),
            sv == seed_statements(sql@),
            out@.map_values(|x: String| x@) == rejected_of(sv.take(i as int)),
        decreases stmts.len() - i,
    {
        assert(sv.take(i + 1).drop_last() == sv.take(i as int));
        assert(sv.take(i + 1).last() == stmts@[i as int]@);
        if !seed_statement_allowed(stmts[i].as_str()) {
            let ghost before = out@.map_values(|x: String| x@);
            out.push(stmts[i].clone());
            assert(out@.map_values(|x: String| x@) == before.push(stmts@[i as int]@));
        }
        i = i + 1;
    }
    assert(sv.take(stmts.len() as int) == sv);
    out
}

/// The listing of refused statements, one per line, numbered from `n`.
pub open spec fn numbered_lines(rs: Seq<Seq<char>>) -> Seq<char>
    decreases rs.len(),
{
    if rs.len() == 0 {
        Seq::empty()
    } else if rs.len() == 1 {
        "  1: "@ + rs[0]
    } else {
        numbered_lines(rs.drop_last()) + "\n  "@ + decimal(rs.len()) + ": "@ + rs.last()
    }
}

/// The error message for refused seed statements.
pub open spec fn rejection_text(rs: Seq<Seq<char>>) -> Seq<char> {
    "seed.sql contains "@ + decimal(rs.len()) + " rejected statement(s):\n"@ + numbered_lines(rs)
}

/// The error message for refused seed statements: their number, then each
/// statement numbered from 1.
pub fn rejection_message(rejected: &Vec<String>) -> (r: String)
    ensures
        r@ == rejection_text(rejected@.map_values(|x: String| x@)),
{
    let ghost rv = rejected@.map_values(|x: String| x@);
    let mut body = String::new();
    let mut i: usize = 0;
    while i < rejected.len()
        invariant
            i <= rejected.len(),
            rv == rejected@.map_values(|x: String| x@),
            body@ == numbered_lines(rv.take(i as int)),
        decreases rejected.len() - i,
    {
        assert(rv.take(i + 1).drop_last() == rv.take(i as int));
        assert(rv.take(i + 1).last() == rejected@[i as int]@);
        if i == 0 {
            body.append("  1: ");
            body.append(rejected[i].as_str());
            proof {
                reveal_strlit("  1: ");
            }
            assert(rv.take(1) =~= seq![rv[0]]);
        } else {
            let n = decimal_chars((i + 1) as u64);
            let ns = string_of(n.as_slice());
            body.append("\n  ");
            body.append(ns.as_str());
            body.append(": ");
            body.append(rejected[i].as_str());
        }
        i = i + 1;
    }
    assert(rv.take(rejected.len() as int) == rv);
    let count = decimal_chars(rejected.len() as u64);
    let cs = string_of(count.as_slice());
    let mut msg = crate::text::owned("seed.sql contains ");
    msg.append(cs.as_str());
    msg.append(" rejected statement(s):\n");
    msg.append(body.as_str());
    msg
}

} // verus!

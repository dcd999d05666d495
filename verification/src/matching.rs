//! Matching symbol names against ownership rules: comma-separated glob
//! patterns, a small regular-expression subset, and the keywords of a rule's
//! description.
use vstd::prelude::*;

use crate::text::{
    is_ws, trim_end, trim_start,
    chars_eq, chars_of, contains, ends_with, find, find_from, has_prefix, has_suffix, lemma_find_from,
    lemma_split_acc_nonempty, occurs_at, slice_of, split, split_acc, split_chars, starts_with, string_of, trim,
    trim_chars,
};
use crate::unicode::{
    byte_len, char_is_alphanumeric, char_is_uppercase, char_len_utf8, is_alnum, is_upper,
    lowercase, str_to_lowercase, utf8_len,
};

verus! {

// ---------------------------------------------------------------- globs

/// Walks the `*`-separated `parts` of a glob through `name`, each non-empty part
/// at its first occurrence at or after `pos`; the first part must sit at the start.
pub open spec fn glob_walk(name: Seq<char>, parts: Seq<Seq<char>>, i: int, pos: int) -> bool
    decreases parts.len() - i,
{
    if i < 0 || i >= parts.len() {
        true
    } else if parts[i].len() == 0 {
        glob_walk(name, parts, i + 1, pos)
    } else {
        match find_from(name.skip(pos), parts[i], 0) {
            None => false,
            Some(f) => if i == 0 && f != 0 {
                false
            } else {
                glob_walk(name, parts, i + 1, pos + f + parts[i].len())
            },
        }
    }
}

/// Whether `name` matches one glob `pattern` (only `*` is special): without a
/// `*` the two must be equal; otherwise the parts between the stars must be
/// found in order, the first at the start, and, unless the pattern ends with
/// `*`, the name must end with the last part.
pub open spec fn glob_single(name: Seq<char>, pattern: Seq<char>) -> bool {
    let parts = split(pattern, '*');
    if parts.len() == 1 {
        name == pattern
    } else {
        glob_walk(name, parts, 0, 0) && (ends_with(pattern, seq!['*']) || ends_with(name, parts.last()))
    }
}

/// Whether `name` matches one of the comma-separated glob `patterns`, each
/// trimmed, empty ones ignored.
pub open spec fn glob_any(name: Seq<char>, patterns: Seq<char>) -> bool {
    let pieces = split(patterns, ',');
    exists|i: int| 0 <= i < pieces.len() && trim(#[trigger] pieces[i]).len() > 0 && glob_single(name, trim(pieces[i]))
}

fn glob_single_chars(name: &[char], pattern: &[char]) -> (r: bool)
    ensures
        r == glob_single(name@, pattern@),
{
    let parts = split_chars(pattern, '*');
    let ghost ps = parts@.map_values(|v: Vec<char>| v@);
    assert(ps == split(pattern@, '*'));
    if parts.len() == 1 {
        return chars_eq(name, pattern);
    }
    let mut pos: usize = 0;
    let mut i: usize = 0;
    while i < parts.len()
        invariant
            ps == parts@.map_values(|v: Vec<char>| v@),
            ps == split(pattern@, '*'),
            parts.len() != 1,
            i <= parts.len(),
            pos <= name.len(),
            glob_walk(name@, ps, 0, 0) == glob_walk(name@, ps, i as int, pos as int),
        decreases parts.len() - i,
    {
        assert(ps[i as int] == parts@[i as int]@);
        let part = &parts[i];
        if part.len() == 0 {
            i = i + 1;
            continue;
        }
        let rest = slice_of(name, pos, name.len());
        assert(rest@ == name@.skip(pos as int));
        match find(rest.as_slice(), part.as_slice()) {
            None => {
                assert(!glob_walk(name@, ps, i as int, pos as int));
                return false;
            },
            Some(f) => {
                if i == 0 && f != 0 {
                    assert(!glob_walk(name@, ps, i as int, pos as int));
                    return false;
                }
                pos = pos + f + part.len();
            },
        }
        i = i + 1;
    }
    let star = chars_of("*");
    proof {
        reveal_strlit("*");
        assert(star@ == seq!['*']);
    }
    if has_suffix(pattern, star.as_slice()) {
        return true;
    }
    let last = &parts[parts.len() - 1];
    assert(ps.last() == last@);
    has_suffix(name, last.as_slice())
}

/// Whether `name` matches one glob pattern (only `*` is special).
pub fn glob_match_single(name: &str, pattern: &str) -> (r: bool)
    ensures
        r == glob_single(name@, pattern@),
{
    let n = chars_of(name);
    let p = chars_of(pattern);
    glob_single_chars(n.as_slice(), p.as_slice())
}

/// Whether `symbol_name` matches one of the comma-separated glob `patterns`
/// (e.g. `Sql*,*Repository,Pg*`).
pub fn glob_matches(symbol_name: &str, patterns: &str) -> (r: bool)
    ensures
        r == glob_any(symbol_name@, patterns@),
{
    let n = chars_of(symbol_name);
    let all = chars_of(patterns);
    let pieces = split_chars(all.as_slice(), ',');
    let ghost ps = pieces@.map_values(|v: Vec<char>| v@);
    let mut i: usize = 0;
    while i < pieces.len()
        invariant
            ps == pieces@.map_values(|v: Vec<char>| v@),
            ps == split(patterns@, ','),
            n@ == symbol_name@,
            i <= pieces.len(),
            forall|j: int| 0 <= j < i ==> !(trim(#[trigger] ps[j]).len() > 0 && glob_single(symbol_name@, trim(ps[j]))),
        decreases pieces.len() - i,
    {
        assert(ps[i as int] == pieces@[i as int]@);
        let p = trim_chars(pieces[i].as_slice());
        assert(p@ == trim(ps[i as int]));
        if p.len() != 0 && glob_single_chars(n.as_slice(), p.as_slice()) {
            assert(trim(ps[i as int]).len() > 0 && glob_single(symbol_name@, trim(ps[i as int])));
            return true;
        }
        i = i + 1;
    }
    false
}

// ---------------------------------------------------------------- what a glob means

/// Whether the parts `parts[i..]` of a glob can be placed in `name` in order,
/// each at or after `pos` and at or after the end of the one before, the last
/// one at the very end: the text between two placed parts is what a `*`
/// stands for.
pub open spec fn parts_fit(name: Seq<char>, parts: Seq<Seq<char>>, i: int, pos: int) -> bool
    decreases parts.len() - i,
{
    if i < 0 || i >= parts.len() {
        true
    } else if i == parts.len() - 1 {
        pos <= name.len() - parts[i].len() && ends_with(name, parts[i])
    } else {
        exists|q: int|
            pos <= q && #[trigger] occurs_at(name, parts[i], q) && parts_fit(name, parts, i + 1, q + parts[i].len())
    }
}

/// What a glob pattern means: without a `*`, the name itself; with stars,
/// each `*` stands for any text, possibly empty: the name is the first part,
/// then each other part in order with any text before it, ending with the
/// last part (`name == p0 + w1 + p1 + .. + wk + pk`).
pub open spec fn glob_meaning(name: Seq<char>, pattern: Seq<char>) -> bool {
    let parts = split(pattern, '*');
    if parts.len() == 1 {
        name == pattern
    } else {
        starts_with(name, parts[0]) && parts_fit(name, parts, 1, parts[0].len() as int)
    }
}

/// A part that fits from some position fits from any earlier one.
proof fn lemma_parts_fit_earlier(name: Seq<char>, parts: Seq<Seq<char>>, i: int, early: int, late: int)
    requires
        early <= late,
        parts_fit(name, parts, i, late),
    ensures
        parts_fit(name, parts, i, early),
{
    if 0 <= i < parts.len() - 1 {
        let q = choose|q: int|
            late <= q && #[trigger] occurs_at(name, parts[i], q) && parts_fit(name, parts, i + 1, q + parts[i].len());
        assert(early <= q && occurs_at(name, parts[i], q) && parts_fit(name, parts, i + 1, q + parts[i].len()));
    }
}

/// An occurrence in the text after `pos` is an occurrence in the whole text.
proof fn lemma_occurs_in_skip(s: Seq<char>, p: Seq<char>, pos: int, j: int)
    requires
        0 <= pos <= s.len(),
        0 <= j,
    ensures
        occurs_at(s.skip(pos), p, j) == occurs_at(s, p, pos + j),
{
    if pos + j + p.len() <= s.len() {
        assert(s.skip(pos).subrange(j, j + p.len()) =~= s.subrange(pos + j, pos + j + p.len()));
    }
}

/// The greedy walk from part `i` on (after the first part), with the check
/// that the name ends with the last part, succeeds exactly when the parts fit.
proof fn lemma_walk_fits(name: Seq<char>, parts: Seq<Seq<char>>, i: int, pos: int)
    requires
        1 <= i < parts.len(),
        0 <= pos <= name.len(),
    ensures
        (glob_walk(name, parts, i, pos) && ends_with(name, parts.last())) == parts_fit(name, parts, i, pos),
    decreases parts.len() - i,
{
    let p = parts[i];
    let k = parts.len() - 1;
    if p.len() == 0 {
        assert(occurs_at(name, p, pos)) by {
            assert(name.subrange(pos, pos + p.len()) =~= p);
        }
        if i == k {
            assert(name.subrange(name.len() - p.len(), name.len() as int) =~= p);
            assert(glob_walk(name, parts, i + 1, pos));
            assert(ends_with(name, parts.last()));
        } else {
            lemma_walk_fits(name, parts, i + 1, pos);
            if parts_fit(name, parts, i, pos) {
                let q = choose|q: int|
                    pos <= q && #[trigger] occurs_at(name, parts[i], q) && parts_fit(name, parts, i + 1, q + parts[i].len());
                lemma_parts_fit_earlier(name, parts, i + 1, pos, q);
            }
        }
    } else {
        let rest = name.skip(pos);
        lemma_find_from(rest, p, 0);
        match find_from(rest, p, 0) {
            Some(f) => {
                lemma_occurs_in_skip(name, p, pos, f);
                let next = pos + f + p.len();
                if i == k {
                    assert(glob_walk(name, parts, i + 1, next));
                    if ends_with(name, p) {
                        assert(occurs_at(name, p, name.len() - p.len()));
                    }
                } else {
                    lemma_walk_fits(name, parts, i + 1, next);
                    if parts_fit(name, parts, i, pos) {
                        let q = choose|q: int|
                            pos <= q && #[trigger] occurs_at(name, parts[i], q) && parts_fit(
                                name,
                                parts,
                                i + 1,
                                q + parts[i].len(),
                            );
                        lemma_occurs_in_skip(name, p, pos, q - pos);
                        assert(f <= q - pos);
                        lemma_parts_fit_earlier(name, parts, i + 1, next, q + p.len());
                    }
                }
            },
            None => {
                if i == k {
                    if ends_with(name, p) && pos <= name.len() - p.len() {
                        assert(occurs_at(name, p, name.len() - p.len()));
                        lemma_occurs_in_skip(name, p, pos, name.len() - p.len() - pos);
                    }
                } else if parts_fit(name, parts, i, pos) {
                    let q = choose|q: int|
                        pos <= q && #[trigger] occurs_at(name, parts[i], q) && parts_fit(name, parts, i + 1, q + parts[i].len());
                    lemma_occurs_in_skip(name, p, pos, q - pos);
                }
            },
        }
    }
}

/// The last piece of a text that ends with the separator is empty.
proof fn lemma_split_last_empty(cur: Seq<char>, rest: Seq<char>, sep: char)
    requires
        rest.len() > 0,
        rest.last() == sep,
    ensures
        split_acc(cur, rest, sep).len() >= 1,
        split_acc(cur, rest, sep).last() == Seq::<char>::empty(),
    decreases rest.len(),
{
    lemma_split_acc_nonempty(cur, rest, sep);
    let tail = rest.drop_first();
    if rest[0] == sep {
        lemma_split_acc_nonempty(Seq::empty(), tail, sep);
        let later = split_acc(Seq::empty(), tail, sep);
        assert(split_acc(cur, rest, sep) == seq![cur] + later);
        if rest.len() == 1 {
            assert(tail.len() == 0);
            assert(later == seq![Seq::<char>::empty()]);
        } else {
            assert(tail.last() == rest.last());
            lemma_split_last_empty(Seq::empty(), tail, sep);
        }
        assert((seq![cur] + later).last() == later.last());
    } else {
        if rest.len() == 1 {
            assert(rest[0] == rest.last());
        }
        assert(tail.last() == rest.last());
        lemma_split_last_empty(cur.push(rest[0]), tail, sep);
    }
}

/// What a glob matches is what it means: `glob_match_single` holds exactly
/// when each `*` of the pattern can stand for some text (possibly empty) that
/// makes the pattern the name, and, for a pattern without `*`, when the name
/// is the pattern. For instance `*ab` matches `abab`, `a*a` does not match
/// `a`, and `Sql*` matches `SqlPool` but not `MySql`.
pub proof fn lemma_glob_meaning(name: Seq<char>, pattern: Seq<char>)
    ensures
        glob_single(name, pattern) == glob_meaning(name, pattern),
{
    let parts = split(pattern, '*');
    lemma_split_acc_nonempty(Seq::empty(), pattern, '*');
    if parts.len() >= 2 {
        if ends_with(pattern, seq!['*']) {
            assert(pattern.last() == pattern.subrange(pattern.len() - 1, pattern.len() as int)[0]);
            lemma_split_last_empty(Seq::empty(), pattern, '*');
            assert(name.subrange(name.len() - parts.last().len(), name.len() as int) =~= parts.last());
        }
        let p0 = parts[0];
        assert(name.skip(0) =~= name);
        if p0.len() == 0 {
            assert(name.subrange(0, 0) =~= p0);
            lemma_walk_fits(name, parts, 1, 0);
        } else {
            lemma_find_from(name, p0, 0);
            if starts_with(name, p0) {
                assert(occurs_at(name, p0, 0));
                lemma_walk_fits(name, parts, 1, p0.len() as int);
            } else {
                match find_from(name, p0, 0) {
                    Some(f) => {
                        if f == 0 {
                            assert(occurs_at(name, p0, 0));
                        }
                    },
                    None => {},
                }
            }
        }
    }
}

// ---------------------------------------------------------------- regex subset

/// `s` without all of its leading `c` (`str::trim_start_matches`).
pub open spec fn strip_leading(s: Seq<char>, c: char) -> Seq<char>
    decreases s.len(),
{
    if s.len() > 0 && s[0] == c {
        strip_leading(s.drop_first(), c)
    } else {
        s
    }
}

/// `s` without all of its trailing `c` (`str::trim_end_matches`).
pub open spec fn strip_trailing(s: Seq<char>, c: char) -> Seq<char>
    decreases s.len(),
{
    if s.len() > 0 && s.last() == c {
        strip_trailing(s.drop_last(), c)
    } else {
        s
    }
}

/// `s` without the parentheses of a group around all of it: `(A|B)` gives
/// `A|B`; a text that does not both begin with `(` and end with `)` is kept.
pub open spec fn ungroup(s: Seq<char>) -> Seq<char> {
    if s.len() >= 2 && s[0] == '(' && s.last() == ')' {
        s.subrange(1, s.len() - 1)
    } else {
        s
    }
}

/// The alternatives part of a pattern: its anchors removed, then the
/// parentheses of a group around it.
pub open spec fn regex_body(p: Seq<char>) -> Seq<char> {
    ungroup(strip_trailing(strip_leading(p, '^'), '$'))
}

/// The text of one alternative, trimmed.
pub open spec fn alt_text(a: Seq<char>) -> Seq<char> {
    trim(a)
}

/// Whether `sym` matches one alternative under the pattern's anchors.
pub open spec fn alt_matches(sym: Seq<char>, alt: Seq<char>, at_start: bool, at_end: bool) -> bool {
    if at_start && at_end {
        sym == alt
    } else if at_start {
        starts_with(sym, alt)
    } else if at_end {
        ends_with(sym, alt)
    } else {
        contains(sym, alt)
    }
}

/// Whether `sym` matches a pattern of `^`, `$`, `|` and grouping
/// parentheses: some non-empty alternative (see `alt_text`) equals, begins,
/// ends or occurs in the name, as the anchors say.
pub open spec fn regex_match(sym: Seq<char>, p: Seq<char>) -> bool {
    let alts = split(regex_body(p), '|');
    exists|i: int|
        0 <= i < alts.len() && alt_text(#[trigger] alts[i]).len() > 0 && alt_matches(
            sym,
            alt_text(alts[i]),
            starts_with(p, seq!['^']),
            ends_with(p, seq!['$']),
        )
}

pub fn strip_leading_chars(s: &[char], c: char) -> (r: Vec<char>)
    ensures
        r@ == strip_leading(s@, c),
{
    let mut i: usize = 0;
    assert(s@.skip(0) == s@);
    while i < s.len() && s[i] == c
        invariant
            i <= s.len(),
            strip_leading(s@, c) == strip_leading(s@.skip(i as int), c),
        decreases s.len() - i,
    {
        assert(s@.skip(i as int).drop_first() == s@.skip(i + 1));
        i = i + 1;
    }
    slice_of(s, i, s.len())
}

pub fn strip_trailing_chars(s: &[char], c: char) -> (r: Vec<char>)
    ensures
        r@ == strip_trailing(s@, c),
{
    let mut j: usize = s.len();
    assert(s@.take(s.len() as int) == s@);
    while j > 0 && s[j - 1] == c
        invariant
            j <= s.len(),
            strip_trailing(s@, c) == strip_trailing(s@.take(j as int), c),
        decreases j,
    {
        assert(s@.take(j as int).drop_last() == s@.take(j - 1));
        j = j - 1;
    }
    slice_of(s, 0, j)
}

fn alt_matches_chars(sym: &[char], alt: &[char], at_start: bool, at_end: bool) -> (r: bool)
    ensures
        r == alt_matches(sym@, alt@, at_start, at_end),
{
    if at_start && at_end {
        chars_eq(sym, alt)
    } else if at_start {
        has_prefix(sym, alt)
    } else if at_end {
        has_suffix(sym, alt)
    } else {
        find(sym, alt).is_some()
    }
}

/// Whether `symbol_name` matches a pattern of the supported regular-expression
/// subset: `^` (start anchor), `$` (end anchor), `|` (alternation) and `()`
/// (grouping).
pub fn regex_matches(symbol_name: &str, pattern: &str) -> (r: bool)
    ensures
        r == regex_match(symbol_name@, pattern@),
{
    let sym = chars_of(symbol_name);
    let p = chars_of(pattern);
    let caret = ['^'];
    let dollar = ['$'];
    assert(caret@ == seq!['^']);
    assert(dollar@ == seq!['$']);
    let at_start = has_prefix(p.as_slice(), caret.as_slice());
    let at_end = has_suffix(p.as_slice(), dollar.as_slice());
    let a1 = strip_leading_chars(p.as_slice(), '^');
    let a = strip_trailing_chars(a1.as_slice(), '$');
    let body = if a.len() >= 2 && a[0] == '(' && a[a.len() - 1] == ')' {
        slice_of(a.as_slice(), 1, a.len() - 1)
    } else {
        a
    };
    assert(body@ == regex_body(p@));
    let alts = split_chars(body.as_slice(), '|');
    let ghost al = alts@.map_values(|v: Vec<char>| v@);
    let mut i: usize = 0;
    while i < alts.len()
        invariant
            al == alts@.map_values(|v: Vec<char>| v@),
            al == split(regex_body(pattern@), '|'),
            at_start == starts_with(pattern@, seq!['^']),
            at_end == ends_with(pattern@, seq!['$']),
            sym@ == symbol_name@,
            i <= alts.len(),
            forall|j: int|
                0 <= j < i ==> !(alt_text(#[trigger] al[j]).len() > 0 && alt_matches(
                    symbol_name@,
                    alt_text(al[j]),
                    at_start,
                    at_end,
                )),
        decreases alts.len() - i,
    {
        assert(al[i as int] == alts@[i as int]@);
        let alt = trim_chars(alts[i].as_slice());
        assert(alt@ == alt_text(al[i as int]));
        if alt.len() != 0 && alt_matches_chars(sym.as_slice(), alt.as_slice(), at_start, at_end) {
            assert(alt_text(al[i as int]).len() > 0 && alt_matches(symbol_name@, alt_text(al[i as int]), at_start, at_end));
            return true;
        }
        i = i + 1;
    }
    false
}

/// Whether `a` is a plain alternative: not empty, holding none of `^ $ | ( )`,
/// and neither beginning nor ending with whitespace.
pub open spec fn plain_alternative(a: Seq<char>) -> bool {
    &&& a.len() > 0
    &&& forall|i: int| 0 <= i < a.len() ==> {
        let c = #[trigger] a[i];
        c != '^' && c != '$' && c != '|' && c != '(' && c != ')'
    }
    &&& !is_ws(a[0])
    &&& !is_ws(a.last())
}

/// Splitting a text that holds no separator gives the text itself.
proof fn lemma_split_without_sep(cur: Seq<char>, rest: Seq<char>, sep: char)
    requires
        forall|i: int| 0 <= i < rest.len() ==> rest[i] != sep,
    ensures
        split_acc(cur, rest, sep) == seq![cur + rest],
    decreases rest.len(),
{
    if rest.len() == 0 {
        assert(cur + rest =~= cur);
    } else {
        assert(rest[0] != sep);
        let tail = rest.drop_first();
        assert forall|i: int| 0 <= i < tail.len() implies tail[i] != sep by {
            assert(tail[i] == rest[i + 1]);
        }
        lemma_split_without_sep(cur.push(rest[0]), tail, sep);
        assert(cur.push(rest[0]) + tail =~= cur + rest);
    }
}

/// A pattern whose alternatives part is one plain alternative `a` matches
/// `s` as `a` does under the pattern's anchors.
proof fn lemma_single_alternative(s: Seq<char>, p: Seq<char>, a: Seq<char>)
    requires
        plain_alternative(a),
        regex_body(p) == a,
    ensures
        regex_match(s, p) == alt_matches(s, a, starts_with(p, seq!['^']), ends_with(p, seq!['$'])),
{
    lemma_split_without_sep(Seq::empty(), a, '|');
    assert(Seq::<char>::empty() + a =~= a);
    let alts = split(regex_body(p), '|');
    assert(alts == seq![a]);
    assert(trim_start(a) == a);
    assert(trim_end(a) == a);
    assert(alt_text(alts[0]) == a);
}

/// The anchors of the regular-expression subset, for a plain alternative `a`:
/// `a$` matches the names that end with `a`, `^a` those that begin with it,
/// `^a$` the name `a` itself, and `a` alone every name that contains it.
pub proof fn lemma_regex_anchors(s: Seq<char>, a: Seq<char>)
    requires
        plain_alternative(a),
    ensures
        regex_match(s, a + seq!['$']) == ends_with(s, a),
        regex_match(s, seq!['^'] + a) == starts_with(s, a),
        regex_match(s, seq!['^'] + a + seq!['$']) == (s == a),
        regex_match(s, a) == contains(s, a),
{
    let n = a.len();
    assert(a[0] != '^' && a[0] != '(' && a.last() != '$' && a.last() != ')');
    // `a$`
    let p1 = a + seq!['$'];
    assert(p1[0] == a[0]);
    assert(strip_leading(p1, '^') == p1);
    assert(p1.drop_last() =~= a);
    assert(strip_trailing(a, '$') == a);
    assert(strip_trailing(p1, '$') == a);
    assert(ungroup(a) == a);
    assert(p1.subrange(0, 1) =~= seq![a[0]]);
    assert(p1.subrange(p1.len() - 1, p1.len() as int) =~= seq!['$']);
    lemma_single_alternative(s, p1, a);
    // `^a`
    let p2 = seq!['^'] + a;
    assert(p2.drop_first() =~= a);
    assert(strip_leading(a, '^') == a);
    assert(strip_leading(p2, '^') == a);
    assert(p2.last() == a.last());
    assert(strip_trailing(a, '$') == a);
    assert(p2.subrange(0, 1) =~= seq!['^']);
    assert(p2.subrange(p2.len() - 1, p2.len() as int) =~= seq![a.last()]);
    lemma_single_alternative(s, p2, a);
    // `^a$`
    let p3 = seq!['^'] + a + seq!['$'];
    assert(p3.drop_first() =~= p1);
    assert(strip_leading(p3, '^') == p1);
    assert(p3.subrange(0, 1) =~= seq!['^']);
    assert(p3.subrange(p3.len() - 1, p3.len() as int) =~= seq!['$']);
    lemma_single_alternative(s, p3, a);
    // `a`
    assert(strip_leading(a, '^') == a);
    assert(a.subrange(0, 1) =~= seq![a[0]]);
    assert(a.subrange(a.len() - 1, a.len() as int) =~= seq![a.last()]);
    lemma_single_alternative(s, a, a);
}

// ---------------------------------------------------------------- CamelCase

/// The pieces of `rest`, a new piece starting at each upper-case character that
/// follows a non-empty piece `cur`.
pub open spec fn camel_acc(cur: Seq<char>, rest: Seq<char>) -> Seq<Seq<char>>
    decreases rest.len(),
{
    if rest.len() == 0 {
        if cur.len() == 0 {
            Seq::empty()
        } else {
            seq![cur]
        }
    } else if is_upper(rest[0]) && cur.len() > 0 {
        seq![cur] + camel_acc(seq![rest[0]], rest.drop_first())
    } else {
        camel_acc(cur.push(rest[0]), rest.drop_first())
    }
}

/// The lower-cased CamelCase parts of `s` (`HttpClient` gives `http`, `client`);
/// a string with no parts gives its own lower-case form.
pub open spec fn camel_parts(s: Seq<char>) -> Seq<Seq<char>> {
    let pieces = camel_acc(Seq::empty(), s);
    if pieces.len() == 0 {
        seq![lowercase(s)]
    } else {
        pieces.map_values(|p: Seq<char>| lowercase(p))
    }
}

/// The parts of `s` as lower-case strings (see [`camel_parts`]).
pub fn split_camel_case(s: &str) -> (r: Vec<String>)
    ensures
        r@.map_values(|x: String| x@) == camel_parts(s@),
{
    let cs = chars_of(s);
    let mut parts: Vec<String> = Vec::new();
    let ghost mut raw: Seq<Seq<char>> = Seq::empty();
    let mut cur: Vec<char> = Vec::new();
    let mut i: usize = 0;
    assert(cs@.skip(0) == cs@);
    while i < cs.len()
        invariant
            cs@ == s@,
            i <= cs.len(),
            parts@.map_values(|x: String| x@) == raw.map_values(|p: Seq<char>| lowercase(p)),
            raw + camel_acc(cur@, cs@.skip(i as int)) == camel_acc(Seq::empty(), s@),
        decreases cs.len() - i,
    {
        let c = cs[i];
        let ghost rest = cs@.skip(i as int);
        assert(rest.drop_first() == cs@.skip(i + 1));
        assert(rest[0] == c);
        if char_is_uppercase(c) && cur.len() != 0 {
            let piece = string_of(cur.as_slice());
            let low = str_to_lowercase(piece.as_str());
            let ghost before = parts@.map_values(|x: String| x@);
            parts.push(low);
            assert(parts@.map_values(|x: String| x@) == before.push(low@));
            proof {
                let old_raw = raw;
                raw = raw.push(cur@);
                assert(raw.map_values(|p: Seq<char>| lowercase(p)) == old_raw.map_values(|p: Seq<char>| lowercase(p)).push(lowercase(cur@)));
                assert(old_raw + (seq![cur@] + camel_acc(seq![c], cs@.skip(i + 1))) == raw + camel_acc(seq![c], cs@.skip(i + 1)));
            }
            cur = Vec::new();
            cur.push(c);
            assert(cur@ == seq![c]);
        } else {
            cur.push(c);
        }
        i = i + 1;
    }
    if cur.len() != 0 {
        let piece = string_of(cur.as_slice());
        let low = str_to_lowercase(piece.as_str());
        let ghost before = parts@.map_values(|x: String| x@);
        parts.push(low);
        assert(parts@.map_values(|x: String| x@) == before.push(low@));
        proof {
            let old_raw = raw;
            raw = raw.push(cur@);
            assert(raw.map_values(|p: Seq<char>| lowercase(p)) == old_raw.map_values(|p: Seq<char>| lowercase(p)).push(lowercase(cur@)));
        }
    }
    assert(raw == camel_acc(Seq::empty(), s@));
    if parts.len() == 0 {
        let low = str_to_lowercase(s);
        parts.push(low);
        assert(parts@.map_values(|x: String| x@) == seq![lowercase(s@)]);
    }
    parts
}

} // verus!

verus! {

// ---------------------------------------------------------------- rule keywords

/// The words that a rule description may hold without naming a concern.
pub open spec fn stop_words() -> Seq<Seq<char>> {
    seq!["no"@, "or"@, "and"@, "the"@, "a"@, "an"@, "in"@, "of"@, "to"@, "for"@, "not"@, "with"@, "from"@, "by"@, "on"@, "at"@, "is"@, "be"@, "as"@, "do"@, "does"@, "should"@, "must"@, "direct"@, "operations"@, "concerns"@, "logic"@, "definitions"@, "handling"@]
}

/// Whether `w` is one of the stop words.
pub fn is_stop_word(w: &[char]) -> (r: bool)
    ensures
        r == stop_words().contains(w@),
{
    if chars_eq(w, chars_of("no").as_slice()) {
        return true;
    }
    if chars_eq(w, chars_of("or").as_slice()) {
        return true;
    }
    if chars_eq(w, chars_of("and").as_slice()) {
        return true;
    }
    if chars_eq(w, chars_of("the").as_slice()) {
        return true;
    }
    if chars_eq(w, chars_of("a").as_slice()) {
        return true;
    }
    if chars_eq(w, chars_of("an").as_slice()) {
        return true;
    }
    if chars_eq(w, chars_of("in").as_slice()) {
        return true;
    }
    if chars_eq(w, chars_of("of").as_slice()) {
        return true;
    }
    if chars_eq(w, chars_of("to").as_slice()) {
        return true;
    }
    if chars_eq(w, chars_of("for").as_slice()) {
        return true;
    }
    if chars_eq(w, chars_of("not").as_slice()) {
        return true;
    }
    if chars_eq(w, chars_of("with").as_slice()) {
        return true;
    }
    if chars_eq(w, chars_of("from").as_slice()) {
        return true;
    }
    if chars_eq(w, chars_of("by").as_slice()) {
        return true;
    }
    if chars_eq(w, chars_of("on").as_slice()) {
        return true;
    }
    if chars_eq(w, chars_of("at").as_slice()) {
        return true;
    }
    if chars_eq(w, chars_of("is").as_slice()) {
        return true;
    }
    if chars_eq(w, chars_of("be").as_slice()) {
        return true;
    }
    if chars_eq(w, chars_of("as").as_slice()) {
        return true;
    }
    if chars_eq(w, chars_of("do").as_slice()) {
        return true;
    }
    if chars_eq(w, chars_of("does").as_slice()) {
        return true;
    }
    if chars_eq(w, chars_of("should").as_slice()) {
        return true;
    }
    if chars_eq(w, chars_of("must").as_slice()) {
        return true;
    }
    if chars_eq(w, chars_of("direct").as_slice()) {
        return true;
    }
    if chars_eq(w, chars_of("operations").as_slice()) {
        return true;
    }
    if chars_eq(w, chars_of("concerns").as_slice()) {
        return true;
    }
    if chars_eq(w, chars_of("logic").as_slice()) {
        return true;
    }
    if chars_eq(w, chars_of("definitions").as_slice()) {
        return true;
    }
    if chars_eq(w, chars_of("handling").as_slice()) {
        return true;
    }
    proof {
        assert forall|k: int| 0 <= k < stop_words().len() implies stop_words()[k] != w@ by {
        }
    }
    false
}

/// The pieces of `rest` between characters that are not alphanumeric, the piece
/// under construction being `cur`.
pub open spec fn split_words_acc(cur: Seq<char>, rest: Seq<char>) -> Seq<Seq<char>>
    decreases rest.len(),
{
    if rest.len() == 0 {
        seq![cur]
    } else if !is_alnum(rest[0]) {
        seq![cur] + split_words_acc(Seq::empty(), rest.drop_first())
    } else {
        split_words_acc(cur.push(rest[0]), rest.drop_first())
    }
}

/// Whether a piece of a rule description is a keyword: at least two bytes long
/// and no stop word.
pub open spec fn is_keyword(w: Seq<char>) -> bool {
    byte_len(w) >= 2 && !stop_words().contains(w)
}

/// The keywords among `pieces`, in order.
pub open spec fn keywords_of(pieces: Seq<Seq<char>>) -> Seq<Seq<char>>
    decreases pieces.len(),
{
    if pieces.len() == 0 {
        Seq::empty()
    } else if is_keyword(pieces.last()) {
        keywords_of(pieces.drop_last()).push(pieces.last())
    } else {
        keywords_of(pieces.drop_last())
    }
}

/// The keywords of a rule description: its lower-case form split at every
/// character that is not alphanumeric, without short pieces and stop words.
pub open spec fn rule_keywords(rule: Seq<char>) -> Seq<Seq<char>> {
    keywords_of(split_words_acc(Seq::empty(), lowercase(rule)))
}

/// Whether `byte_len(s) >= k`, found without summing past `k`.
fn byte_len_at_least(s: &[char], k: usize) -> (r: bool)
    requires
        k <= 4,
    ensures
        r == (byte_len(s@) >= k),
{
    let mut n: usize = 0;
    let mut i: usize = 0;
    while i < s.len() && n < k
        invariant
            i <= s.len(),
            n == byte_len(s@.take(i as int)),
            k <= 4,
            n < k + 4,
        decreases s.len() - i,
    {
        assert(s@.take(i + 1).drop_last() == s@.take(i as int));
        n = n + char_len_utf8(s[i]);
        i = i + 1;
    }
    proof {
        crate::unicode::lemma_byte_len_prefix(s@, i as int);
        if i == s.len() {
            assert(s@.take(i as int) == s@);
        } else {
            lemma_byte_len_monotone(s@, i as int);
        }
    }
    n >= k
}

/// A longer prefix takes at least as many bytes.
proof fn lemma_byte_len_monotone(s: Seq<char>, k: int)
    requires
        0 <= k <= s.len(),
    ensures
        byte_len(s.take(k)) <= byte_len(s),
{
    crate::unicode::lemma_byte_len_prefix(s, k);
}

/// The number of characters of `w` that take exactly four bytes, if any: the
/// scan from character `k`, `acc` bytes having been taken.
pub open spec fn stem_cut_from(w: Seq<char>, k: int, acc: int) -> Option<int>
    decreases w.len() - k,
{
    if acc == 4 {
        Some(k)
    } else if acc > 4 || k < 0 || k >= w.len() {
        None
    } else {
        stem_cut_from(w, k + 1, acc + utf8_len(w[k]))
    }
}

/// The number of characters of `w` that take exactly four bytes, if any.
pub open spec fn stem_cut(w: Seq<char>) -> Option<int> {
    stem_cut_from(w, 0, 0)
}

fn stem_cut_exec(w: &[char]) -> (r: Option<usize>)
    ensures
        match r {
            Some(k) => stem_cut(w@) == Some(k as int) && k <= w.len(),
            None => stem_cut(w@) is None,
        },
{
    let mut acc: usize = 0;
    let mut k: usize = 0;
    while acc < 4 && k < w.len()
        invariant
            k <= w.len(),
            acc <= 4 + 4,
            stem_cut(w@) == stem_cut_from(w@, k as int, acc as int),
        decreases w.len() - k,
    {
        acc = acc + char_len_utf8(w[k]);
        k = k + 1;
    }
    if acc == 4 {
        Some(k)
    } else {
        None
    }
}

/// How one CamelCase part of the symbol answers a keyword: `Some(true)` when
/// they are equal or share the same first four bytes (both being at least four
/// bytes long), `Some(false)` when not, and `None` where the four-byte cut falls
/// inside a character.
pub open spec fn part_outcome(kw: Seq<char>, part: Seq<char>) -> Option<bool> {
    if part == kw {
        Some(true)
    } else if byte_len(kw) >= 4 && byte_len(part) >= 4 {
        match (stem_cut(kw), stem_cut(part)) {
            (Some(a), Some(b)) => Some(kw.take(a) == part.take(b)),
            _ => None,
        }
    } else {
        Some(false)
    }
}

/// How the parts from index `j` on answer a keyword, the first decisive part winning.
pub open spec fn parts_outcome(kw: Seq<char>, parts: Seq<Seq<char>>, j: int) -> Option<bool>
    decreases parts.len() - j,
{
    if j < 0 || j >= parts.len() {
        Some(false)
    } else {
        match part_outcome(kw, parts[j]) {
            Some(true) => Some(true),
            Some(false) => parts_outcome(kw, parts, j + 1),
            None => None,
        }
    }
}

/// How the keywords from index `i` on answer a lower-cased symbol and its parts.
pub open spec fn keywords_outcome(
    sym: Seq<char>,
    parts: Seq<Seq<char>>,
    kws: Seq<Seq<char>>,
    i: int,
) -> Option<bool>
    decreases kws.len() - i,
{
    if i < 0 || i >= kws.len() {
        Some(false)
    } else {
        let here = if contains(sym, kws[i]) {
            Some(true)
        } else {
            parts_outcome(kws[i], parts, 0)
        };
        match here {
            Some(true) => Some(true),
            Some(false) => keywords_outcome(sym, parts, kws, i + 1),
            None => None,
        }
    }
}

/// Whether a symbol name touches the concerns of a rule description: some
/// keyword of the rule occurs in the lower-cased name, equals one of the
/// lower-cased parts that the name splits into at its CamelCase boundaries,
/// or shares a four-byte stem with one (`routing` and `router` of
/// `ClientRouter`). `None` stands for the inputs where the four-byte cut of a
/// stem falls inside a multi-byte character.
pub open spec fn rule_outcome(symbol: Seq<char>, rule: Seq<char>) -> Option<bool> {
    keywords_outcome(lowercase(symbol), camel_parts(symbol), rule_keywords(rule), 0)
}

fn part_outcome_exec(kw: &[char], part: &[char]) -> (r: Option<bool>)
    ensures
        r == part_outcome(kw@, part@),
{
    if chars_eq(part, kw) {
        return Some(true);
    }
    if byte_len_at_least(kw, 4) && byte_len_at_least(part, 4) {
        match (stem_cut_exec(kw), stem_cut_exec(part)) {
            (Some(a), Some(b)) => {
                let x = slice_of(kw, 0, a);
                let y = slice_of(part, 0, b);
                Some(chars_eq(x.as_slice(), y.as_slice()))
            },
            _ => None,
        }
    } else {
        Some(false)
    }
}

/// The keywords of a rule description.
fn rule_keywords_exec(rule: &str) -> (r: Vec<Vec<char>>)
    ensures
        r@.map_values(|v: Vec<char>| v@) == rule_keywords(rule@),
{
    let low = str_to_lowercase(rule);
    let cs = chars_of(low.as_str());
    let mut out: Vec<Vec<char>> = Vec::new();
    let ghost mut pieces: Seq<Seq<char>> = Seq::empty();
    let mut cur: Vec<char> = Vec::new();
    let mut i: usize = 0;
    assert(cs@.skip(0) == cs@);
    while i < cs.len()
        invariant
            cs@ == lowercase(rule@),
            i <= cs.len(),
            out@.map_values(|v: Vec<char>| v@) == keywords_of(pieces),
            pieces + split_words_acc(cur@, cs@.skip(i as int)) == split_words_acc(Seq::empty(), cs@),
        decreases cs.len() - i,
    {
        let c = cs[i];
        let ghost rest = cs@.skip(i as int);
        assert(rest.drop_first() == cs@.skip(i + 1));
        assert(rest[0] == c);
        if !char_is_alphanumeric(c) {
            let ghost old_pieces = pieces;
            proof {
                pieces = pieces.push(cur@);
                assert(pieces.drop_last() == old_pieces);
                assert(old_pieces + (seq![cur@] + split_words_acc(Seq::empty(), cs@.skip(i + 1))) == pieces + split_words_acc(Seq::empty(), cs@.skip(i + 1)));
            }
            if byte_len_at_least(cur.as_slice(), 2) && !is_stop_word(cur.as_slice()) {
                let ghost before = out@.map_values(|v: Vec<char>| v@);
                out.push(cur);
                assert(out@.map_values(|v: Vec<char>| v@) == before.push(pieces.last()));
            }
            cur = Vec::new();
        } else {
            cur.push(c);
        }
        i = i + 1;
    }
    let ghost old_pieces = pieces;
    proof {
        pieces = pieces.push(cur@);
        assert(pieces.drop_last() == old_pieces);
    }
    if byte_len_at_least(cur.as_slice(), 2) && !is_stop_word(cur.as_slice()) {
        let ghost before = out@.map_values(|v: Vec<char>| v@);
        out.push(cur);
        assert(out@.map_values(|v: Vec<char>| v@) == before.push(pieces.last()));
    }
    assert(pieces == split_words_acc(Seq::empty(), cs@));
    out
}

/// Whether a symbol name touches the concerns of a rule description, or `None`
/// where the four-byte cut of a stem falls inside a multi-byte character.
pub fn rule_match(symbol_name: &str, rule_description: &str) -> (r: Option<bool>)
    ensures
        r == rule_outcome(symbol_name@, rule_description@),
{
    let sym = str_to_lowercase(symbol_name);
    let sym_chars = chars_of(sym.as_str());
    let parts_s = split_camel_case(symbol_name);
    let mut parts: Vec<Vec<char>> = Vec::new();
    let mut j: usize = 0;
    while j < parts_s.len()
        invariant
            j <= parts_s.len(),
            parts@.len() == j,
            forall|m: int| 0 <= m < j ==> (#[trigger] parts@[m])@ == parts_s@[m]@,
        decreases parts_s.len() - j,
    {
        parts.push(chars_of(parts_s[j].as_str()));
        j = j + 1;
    }
    let ghost ps = parts@.map_values(|v: Vec<char>| v@);
    assert(ps == camel_parts(symbol_name@)) by {
        assert(ps =~= parts_s@.map_values(|x: String| x@));
    }
    let kws = rule_keywords_exec(rule_description);
    let ghost ks = kws@.map_values(|v: Vec<char>| v@);
    let mut i: usize = 0;
    while i < kws.len()
        invariant
            i <= kws.len(),
            ps == parts@.map_values(|v: Vec<char>| v@),
            ks == kws@.map_values(|v: Vec<char>| v@),
            sym_chars@ == lowercase(symbol_name@),
            rule_outcome(symbol_name@, rule_description@) == keywords_outcome(sym_chars@, ps, ks, i as int),
            ks == rule_keywords(rule_description@),
            ps == camel_parts(symbol_name@),
        decreases kws.len() - i,
    {
        let kw = kws[i].as_slice();
        assert(ks[i as int] == kw@);
        if find(sym_chars.as_slice(), kw).is_some() {
            return Some(true);
        }
        let mut k: usize = 0;
        while k < parts.len()
            invariant
                k <= parts.len(),
                ps == parts@.map_values(|v: Vec<char>| v@),
                parts_outcome(kw@, ps, 0) == parts_outcome(kw@, ps, k as int),
                i < ks.len(),
                ks[i as int] == kw@,
                !contains(sym_chars@, kw@),
                rule_outcome(symbol_name@, rule_description@) == keywords_outcome(sym_chars@, ps, ks, i as int),
            decreases parts.len() - k,
        {
            assert(ps[k as int] == parts@[k as int]@);
            match part_outcome_exec(kw, parts[k].as_slice()) {
                Some(true) => {
                    return Some(true);
                },
                Some(false) => {},
                None => {
                    return None;
                },
            }
            k = k + 1;
        }
        i = i + 1;
    }
    Some(false)
}

/// Whether a symbol name touches the concerns of a rule description (see
/// [`rule_outcome`]), on the inputs where no four-byte stem cut falls inside a
/// character.
pub fn symbol_matches_rule(symbol_name: &str, rule_description: &str) -> (r: bool)
    requires
        rule_outcome(symbol_name@, rule_description@) is Some,
    ensures
        rule_outcome(symbol_name@, rule_description@) == Some(r),
{
    match rule_match(symbol_name, rule_description) {
        Some(b) => b,
        None => false,
    }
}

} // verus!

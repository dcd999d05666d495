//! What the command-line commands compute and print, apart from reading and
//! writing files: the seed statements that `add-rule` appends, the starter
//! seed of `init`, the files that `scaffold` renders from its templates, the
//! import of a linked registry, the report of `status`, and the summaries
//! of `validate` and `register-plan`.
use vstd::prelude::*;

use rusqlite::Connection;

use crate::advisory::{strings_view, PlanSummary, PlannedAction};
use crate::models::{Crate, LinkedSymbol, OwnershipRuleKind};
use crate::queries::RegistryStats;
use crate::text::{concat, owned};
use crate::time::{decimal, decimal_chars};

verus! {

// ---------------------------------------------------------------- text

/// `to` before each character of `s` and once more at its end: what
/// `str::replace` gives for an empty pattern.
pub open spec fn interleave(s: Seq<char>, to: Seq<char>) -> Seq<char>
    decreases s.len(),
{
    if s.len() == 0 {
        to
    } else {
        to + seq![s[0]] + interleave(s.drop_first(), to)
    }
}

/// `s` with each occurrence of `from` replaced by `to`, from left to right
/// (`str::replace`); an empty pattern occurs before each character and at the
/// end.
pub open spec fn replace_all(s: Seq<char>, from: Seq<char>, to: Seq<char>) -> Seq<char>
    decreases s.len(),
{
    if from.len() == 0 {
        interleave(s, to)
    } else if s.len() < from.len() {
        s
    } else if s.take(from.len() as int) == from {
        to + replace_all(s.skip(from.len() as int), from, to)
    } else {
        seq![s[0]] + replace_all(s.drop_first(), from, to)
    }
}

/// Replaces each occurrence of `from` in `s` by `to` (see `replace_all`).
pub fn replace_text(s: &str, from: &str, to: &str) -> (r: String)
    ensures
        r@ == replace_all(s@, from@, to@),
{
    let cs = crate::text::chars_of(s);
    let fs = crate::text::chars_of(from);
    let mut out = String::new();
    let mut i: usize = 0;
    assert(cs@.skip(0) == cs@);
    if fs.len() == 0 {
        while i < cs.len()
            invariant
                i <= cs.len(),
                cs@ == s@,
                from@.len() == 0,
                out@ + interleave(cs@.skip(i as int), to@) == replace_all(s@, from@, to@),
            decreases cs.len() - i,
        {
            let ghost rest = cs@.skip(i as int);
            assert(rest.drop_first() == cs@.skip(i + 1));
            assert(rest[0] == cs@[i as int]);
            let ghost before = out@;
            out.append(to);
            crate::text::push_char(&mut out, cs[i]);
            assert(out@ + interleave(cs@.skip(i + 1), to@) =~= before + interleave(rest, to@));
            i = i + 1;
        }
        assert(cs@.skip(cs.len() as int).len() == 0);
        out.append(to);
        return out;
    }
    while i < cs.len()
        invariant
            i <= cs.len(),
            cs@ == s@,
            fs@ == from@,
            fs@.len() > 0,
            out@ + replace_all(cs@.skip(i as int), from@, to@) == replace_all(s@, from@, to@),
        decreases cs.len() - i,
    {
        let ghost rest = cs@.skip(i as int);
        if crate::text::matches_at(cs.as_slice(), fs.as_slice(), i) {
            assert(rest.take(fs@.len() as int) == cs@.subrange(i as int, i + fs@.len()));
            assert(rest.skip(fs@.len() as int) == cs@.skip(i + fs.len()));
            let ghost before = out@;
            out.append(to);
            assert(out@ + replace_all(cs@.skip(i + fs.len()), from@, to@) == before + replace_all(rest, from@, to@));
            i = i + fs.len();
        } else {
            proof {
                if rest.len() >= fs@.len() {
                    assert(rest.take(fs@.len() as int) == cs@.subrange(i as int, i + fs@.len()));
                }
            }
            assert(rest.drop_first() == cs@.skip(i + 1));
            assert(rest[0] == cs@[i as int]);
            let ghost before = out@;
            crate::text::push_char(&mut out, cs[i]);
            assert(out@ + replace_all(cs@.skip(i + 1), from@, to@) == before + replace_all(rest, from@, to@));
            i = i + 1;
        }
    }
    assert(cs@.skip(cs.len() as int).len() == 0);
    assert(out@ + replace_all(cs@.skip(cs.len() as int), from@, to@) == out@);
    out
}

/// `s` with each single quote doubled, as SQL writes a quote inside a string.
pub fn escape_sql(s: &str) -> (r: String)
    ensures
        r@ == replace_all(s@, "'"@, "''"@),
{
    proof {
        reveal_strlit("'");
    }
    replace_text(s, "'", "''")
}

/// The decimal text of a count.
pub fn count_string(n: usize) -> (r: String)
    ensures
        r@ == decimal(n as nat),
{
    let d = decimal_chars(n as u64);
    crate::text::string_of(d.as_slice())
}

/// The lines joined with newlines.
pub fn join_lines(lines: &Vec<String>) -> (r: String)
    ensures
        r@ == crate::queries::join_with(strings_view(*lines), "\n"@),
{
    crate::extract::join_strings(lines, "\n")
}

// ---------------------------------------------------------------- rules and seeds

/// The seed statement that `add-rule` appends to `seed.sql` for a rule.
pub fn seed_rule_statement(crate_name: &str, description: &str, kind: OwnershipRuleKind) -> (r: String)
    ensures
        r@ == "INSERT INTO ownership_rules (crate_name, description, kind) VALUES ('"@ + replace_all(
            crate_name@,
            "'"@,
            "''"@,
        ) + "', '"@ + replace_all(description@, "'"@, "''"@) + "', '"@ + kind.text() + "');\n"@,
{
    let mut s = owned("INSERT INTO ownership_rules (crate_name, description, kind) VALUES ('");
    let c = escape_sql(crate_name);
    s.append(c.as_str());
    s.append("', '");
    let d = escape_sql(description);
    s.append(d.as_str());
    s.append("', '");
    s.append(kind.as_str());
    s.append("');\n");
    s
}

/// The message that `add-rule` prints.
pub fn rule_added_message(kind: OwnershipRuleKind, crate_name: &str, description: &str) -> (r: String)
    ensures
        r@ == "Added rule: "@ + kind.text() + " "@ + crate_name@ + " '"@ + description@ + "'"@,
{
    let mut s = concat("Added rule: ", kind.as_str());
    s.append(" ");
    s.append(crate_name);
    s.append(" '");
    s.append(description);
    s.append("'");
    s
}

/// The commented-out rule that the starter seed holds for a crate.
pub open spec fn starter_line(name: Seq<char>) -> Seq<char> {
    "-- INSERT INTO ownership_rules (crate_name, description, kind) VALUES ('"@ + name
        + "', 'TODO: describe ownership', 'must_own');\n"@
}

/// The starter lines for the crates, in order.
pub open spec fn starter_lines(cs: Seq<Crate>) -> Seq<char>
    decreases cs.len(),
{
    if cs.len() == 0 {
        Seq::empty()
    } else {
        starter_lines(cs.drop_last()) + starter_line(cs.last().name@)
    }
}

/// The seed file that `init` writes when there is none: a header, then one
/// commented-out rule per crate.
pub fn starter_seed(crates: &Vec<Crate>) -> (r: String)
    ensures
        r@ == "-- Architecture ownership rules for this workspace\n"@
            + "-- Add rules with: rulest add-rule <crate> <description> --kind <must_own|must_not|shared_with>\n\n"@
            + starter_lines(crates@),
{
    let mut s = owned("-- Architecture ownership rules for this workspace\n");
    s.append("-- Add rules with: rulest add-rule <crate> <description> --kind <must_own|must_not|shared_with>\n\n");
    let ghost head = s@;
    let mut i: usize = 0;
    while i < crates.len()
        invariant
            i <= crates.len(),
            s@ == head + starter_lines(crates@.take(i as int)),
        decreases crates.len() - i,
    {
        assert(crates@.take(i + 1).drop_last() == crates@.take(i as int));
        assert(crates@.take(i + 1).last() == crates@[i as int]);
        s.append("-- INSERT INTO ownership_rules (crate_name, description, kind) VALUES ('");
        s.append(crates[i].name.as_str());
        s.append("', 'TODO: describe ownership', 'must_own');\n");
        i = i + 1;
        assert(s@ =~= head + starter_lines(crates@.take(i as int)));
    }
    assert(crates@.take(crates.len() as int) == crates@);
    s
}

// ---------------------------------------------------------------- scaffold

/// The row of the crate table of the workspace's agent guide for a crate.
pub open spec fn crate_row(c: Crate) -> Seq<char> {
    "| "@ + c.name@ + " | `"@ + c.name@ + "` | "@ + match c.description {
        Some(d) => d@,
        None => "—"@,
    } + " |"@
}

/// The `deny` rule of the agent settings file for a crate.
pub open spec fn deny_rule(c: Crate) -> Seq<char> {
    "      \"Edit(crates/"@ + c.name@ + "/src/**)\","@
}

/// The seed rule that `scaffold` writes for a crate.
pub open spec fn scaffold_insert(c: Crate) -> Seq<char> {
    "INSERT INTO ownership_rules (crate_name, description, kind) VALUES ('"@ + replace_all(c.name@, "'"@, "''"@) + "', '"@
        + replace_all(c.name@, "'"@, "''"@) + " owns its domain logic', 'must_own');"@
}

/// A line per crate, in order.
pub open spec fn crate_lines(cs: Seq<Crate>, which: int) -> Seq<Seq<char>> {
    cs.map_values(
        |c: Crate|
            if which == 0 {
                crate_row(c)
            } else if which == 1 {
                deny_rule(c)
            } else {
                scaffold_insert(c)
            },
    )
}

/// The line of one kind for a crate.
fn crate_line(c: &Crate, which: u8) -> (r: String)
    ensures
        r@ == if which == 0 {
            crate_row(*c)
        } else if which == 1 {
            deny_rule(*c)
        } else {
            scaffold_insert(*c)
        },
{
    if which == 0 {
        let mut s = concat("| ", c.name.as_str());
        s.append(" | `");
        s.append(c.name.as_str());
        s.append("` | ");
        match &c.description {
            Some(d) => s.append(d.as_str()),
            None => s.append("—"),
        }
        s.append(" |");
        s
    } else if which == 1 {
        let mut s = concat("      \"Edit(crates/", c.name.as_str());
        s.append("/src/**)\",");
        s
    } else {
        let n = escape_sql(c.name.as_str());
        let mut s = concat("INSERT INTO ownership_rules (crate_name, description, kind) VALUES ('", n.as_str());
        s.append("', '");
        s.append(n.as_str());
        s.append(" owns its domain logic', 'must_own');");
        s
    }
}

/// The lines of one kind for the crates, joined with newlines: the crate
/// table (0), the deny rules (1) or the seed rules (2).
pub fn crate_list(crates: &Vec<Crate>, which: u8) -> (r: String)
    ensures
        r@ == crate::queries::join_with(crate_lines(crates@, which as int), "\n"@),
{
    let mut lines: Vec<String> = Vec::new();
    let mut i: usize = 0;
    while i < crates.len()
        invariant
            i <= crates.len(),
            strings_view(lines) == crate_lines(crates@.take(i as int), which as int),
        decreases crates.len() - i,
    {
        let l = crate_line(&crates[i], which);
        let ghost before = strings_view(lines);
        lines.push(l);
        assert(strings_view(lines) == before.push(l@));
        assert(crate_lines(crates@.take(i + 1), which as int) == crate_lines(crates@.take(i as int), which as int).push(
            l@,
        ));
        i = i + 1;
    }
    assert(crates@.take(crates.len() as int) == crates@);
    join_lines(&lines)
}

/// The workspace's agent guide: the template with the workspace name and the crate
/// table filled in.
pub fn render_root(template: &str, workspace_name: &str, crates: &Vec<Crate>) -> (r: String)
    ensures
        r@ == replace_all(
            replace_all(template@, "{{workspace_name}}"@, workspace_name@),
            "{{crate_list}}"@,
            crate::queries::join_with(crate_lines(crates@, 0), "\n"@),
        ),
{
    proof {
        reveal_strlit("{{workspace_name}}");
        reveal_strlit("{{crate_list}}");
    }
    let a = replace_text(template, "{{workspace_name}}", workspace_name);
    let rows = crate_list(crates, 0);
    replace_text(a.as_str(), "{{crate_list}}", rows.as_str())
}

/// The agent guide of a crate: the template with its name, description (or a
/// reminder to add one) and dependencies (a reminder) filled in.
pub fn render_module(template: &str, c: &Crate) -> (r: String)
    ensures
        r@ == replace_all(
            replace_all(replace_all(template@, "{{crate_name}}"@, c.name@), "{{description}}"@, match c.description {
                Some(d) => d@,
                None => "TODO: Add description"@,
            }),
            "{{dependencies}}"@,
            "TODO: list dependencies"@,
        ),
{
    proof {
        reveal_strlit("{{crate_name}}");
        reveal_strlit("{{description}}");
        reveal_strlit("{{dependencies}}");
    }
    let a = replace_text(template, "{{crate_name}}", c.name.as_str());
    let desc = match &c.description {
        Some(d) => d.clone(),
        None => owned("TODO: Add description"),
    };
    let b = replace_text(a.as_str(), "{{description}}", desc.as_str());
    replace_text(b.as_str(), "{{dependencies}}", "TODO: list dependencies")
}

/// A template whose `{{crate_list}}` is filled with one kind of crate lines:
/// the deny rules of the agent settings (1) or the seed rules of `seed.sql` (2).
pub fn render_crate_list(template: &str, crates: &Vec<Crate>, which: u8) -> (r: String)
    ensures
        r@ == replace_all(template@, "{{crate_list}}"@, crate::queries::join_with(crate_lines(crates@, which as int), "\n"@)),
{
    proof {
        reveal_strlit("{{crate_list}}");
    }
    let lines = crate_list(crates, which);
    replace_text(template, "{{crate_list}}", lines.as_str())
}

// ---------------------------------------------------------------- linked registries

/// The symbol of a linked registry that a public symbol `(name, kind, module
/// path, crate, signature)` of it is imported as.
pub fn linked_symbol_for(source_name: &str, p: &crate::registry::PublicSymbol, now: &str) -> (r: LinkedSymbol)
    ensures
        r.id is None,
        r.source_name@ == source_name@,
        r.name@ == p.0@,
        crate::advisory::opt_view(r.kind) == Some(p.1@),
        crate::advisory::opt_view(r.crate_name) == Some(p.3@),
        crate::advisory::opt_view(r.mod_path) == Some(p.2@),
        crate::advisory::opt_view(r.signature) == crate::advisory::opt_view(p.4),
        r.linked_at@ == now@,
{
    LinkedSymbol {
        id: None,
        source_name: owned(source_name),
        name: p.0.clone(),
        kind: Some(p.1.clone()),
        crate_name: Some(p.3.clone()),
        mod_path: Some(p.2.clone()),
        signature: match &p.4 {
            Some(g) => Some(g.clone()),
            None => None,
        },
        linked_at: owned(now),
    }
}

/// Whether `s` begins with `p`.
pub open spec fn starts_with_text(s: Seq<char>, p: Seq<char>) -> bool {
    p.len() <= s.len() && s.take(p.len() as int) == p
}

/// Imports the public symbols of an external registry into the local one as
/// symbols of the linked registry `source_name`; gives how many.
pub fn import_symbols(ext_conn: &Connection, local_conn: &Connection, source_name: &str, now: &str) -> (r: Result<usize, String>)
    ensures
        r matches Err(m) ==> starts_with_text(m@, "Failed to query external symbols: "@) || starts_with_text(
            m@,
            "Failed to import symbol: "@,
        ),
{
    let symbols = match crate::registry::query_public_symbols(ext_conn) {
        Ok(v) => v,
        Err(e) => {
            let t = e.message();
            let m = concat("Failed to query external symbols: ", t.as_str());
            assert(m@.take("Failed to query external symbols: "@.len() as int) =~= "Failed to query external symbols: "@);
            return Err(m);
        },
    };
    let mut count: usize = 0;
    let mut i: usize = 0;
    while i < symbols.len()
        invariant
            i <= symbols.len(),
            count == i,
        decreases symbols.len() - i,
    {
        let sym = linked_symbol_for(source_name, &symbols[i], now);
        match crate::registry::insert_linked_symbol(local_conn, &sym) {
            Ok(_) => {},
            Err(e) => {
                let t = e.message();
                let m = concat("Failed to import symbol: ", t.as_str());
                assert(m@.take("Failed to import symbol: "@.len() as int) =~= "Failed to import symbol: "@);
                return Err(m);
            },
        }
        count = count + 1;
        i = i + 1;
    }
    Ok(count)
}

/// The time of a link, as seconds since the Unix epoch in decimal.
pub fn link_timestamp() -> (r: String)
    ensures
        exists|now: u64| r@ == decimal(now as nat),
{
    let now = crate::time::unix_now_secs();
    let d = decimal_chars(now);
    crate::text::string_of(d.as_slice())
}

/// What the `link` command does, from its options: list, refresh, remove a
/// registry, link one, or show its usage.
#[derive(Debug, Clone)]
pub enum LinkCommand {
    List,
    Refresh,
    Remove(String),
    Link { name: String, db_path: String },
    Usage(String),
}

/// What the `link` command does: `--list` first, then `--refresh`, then
/// `--remove`, then linking when both a name and a path are given, else its
/// usage.
pub fn link_command(list: bool, refresh: bool, remove: Option<String>, name: Option<String>, db_path: Option<String>) -> (r: LinkCommand)
    ensures
        list ==> r is List,
        !list && refresh ==> r is Refresh,
        !list && !refresh && remove is Some ==> (r matches LinkCommand::Remove(n) && n == remove->0),
        !list && !refresh && remove is None && name is Some && db_path is Some ==> (r matches LinkCommand::Link {
            name: n,
            db_path: p,
        } && n == name->0 && p == db_path->0),
        !list && !refresh && remove is None && (name is None || db_path is None) ==> (r matches LinkCommand::Usage(m)
            && m@
            == "Usage: rulest link --name <name> --db-path <path> | --list | --refresh | --remove <name>"@),
{
    if list {
        LinkCommand::List
    } else if refresh {
        LinkCommand::Refresh
    } else {
        match remove {
            Some(n) => LinkCommand::Remove(n),
            None => match (name, db_path) {
                (Some(n), Some(p)) => LinkCommand::Link { name: n, db_path: p },
                _ => LinkCommand::Usage(
                    owned("Usage: rulest link --name <name> --db-path <path> | --list | --refresh | --remove <name>"),
                ),
            },
        }
    }
}

/// The line that `link --list` prints for a linked registry.
pub fn linked_registry_line(l: &crate::models::LinkedRegistry) -> (r: String)
    ensures
        r@ == "  "@ + l.name@ + " -> "@ + l.path@ + " (linked: "@ + l.linked_at@ + ")"@,
{
    let mut s = concat("  ", l.name.as_str());
    s.append(" -> ");
    s.append(l.path.as_str());
    s.append(" (linked: ");
    s.append(l.linked_at.as_str());
    s.append(")");
    s
}

// ---------------------------------------------------------------- status, validate, register

/// `s` followed by spaces up to width `w` (`{:<w}`, counting characters).
pub open spec fn pad_right(s: Seq<char>, w: nat) -> Seq<char> {
    if s.len() >= w {
        s
    } else {
        s + Seq::new((w - s.len()) as nat, |i: int| ' ')
    }
}

/// A line of a group count of `status`: the name padded to twelve
/// characters, then the count.
pub open spec fn group_line(name: Seq<char>, n: usize) -> Seq<char> {
    "    "@ + pad_right(name, 12) + " "@ + decimal(n as nat)
}

/// A line of a group count of `status` (see `group_line`).
pub fn group_line_text(name: &str, n: usize) -> (r: String)
    ensures
        r@ == group_line(name@, n),
{
    let mut s = concat("    ", name);
    let len = name.unicode_len();
    let mut k: usize = len;
    let ghost base = s@;
    while k < 12
        invariant
            len == name@.len(),
            len <= k <= 12 || (k == len && len > 12),
            s@ == base + Seq::new((k - len) as nat, |i: int| ' '),
        decreases 12 - k,
    {
        let ghost before = s@;
        crate::text::push_char(&mut s, ' ');
        k = k + 1;
        assert(s@ =~= base + Seq::new((k - len) as nat, |i: int| ' '));
    }
    assert(s@ =~= "    "@ + pad_right(name@, 12));
    s.append(" ");
    let c = count_string(n);
    s.append(c.as_str());
    s
}

/// The lines of a group of counts, under its heading; nothing when the group
/// is empty.
fn push_group(lines: &mut Vec<String>, heading: &str, groups: &Vec<(String, usize)>)
    ensures
        final(lines)@.len() >= old(lines)@.len(),
        final(lines)@.take(old(lines)@.len() as int) == old(lines)@,
        groups.len() == 0 ==> *final(lines) == *old(lines),
        groups.len() > 0 ==> strings_view(*final(lines)) == strings_view(*old(lines)) + seq![Seq::<char>::empty(), heading@]
            + groups@.map_values(|g: (String, usize)| group_line(g.0@, g.1)),
{
    if groups.len() == 0 {
        return;
    }
    let ghost start = strings_view(*lines);
    let ghost raw = lines@;
    lines.push(String::new());
    lines.push(owned(heading));
    let ghost head = strings_view(*lines);
    assert(lines@.take(raw.len() as int) == raw);
    assert(head == start + seq![Seq::<char>::empty(), heading@]);
    let mut i: usize = 0;
    while i < groups.len()
        invariant
            i <= groups.len(),
            strings_view(*lines) == head + groups@.take(i as int).map_values(|g: (String, usize)| group_line(g.0@, g.1)),
            lines@.len() >= raw.len(),
            lines@.take(raw.len() as int) == raw,
        decreases groups.len() - i,
    {
        let l = group_line_text(groups[i].0.as_str(), groups[i].1);
        let ghost before = strings_view(*lines);
        let ghost before_raw = lines@;
        lines.push(l);
        assert(lines@.take(raw.len() as int) == before_raw.take(raw.len() as int));
        assert(strings_view(*lines) == before.push(l@));
        assert(groups@.take(i + 1).map_values(|g: (String, usize)| group_line(g.0@, g.1)) == groups@.take(i as int).map_values(
            |g: (String, usize)| group_line(g.0@, g.1),
        ).push(l@));
        i = i + 1;
    }
    assert(groups@.take(groups.len() as int) == groups@);
}

/// The report that `status` prints: the registry's path, its counts, and the
/// symbols counted by kind, visibility and status where there are any.
pub fn status_lines(db_path: &str, stats: &RegistryStats) -> (r: Vec<String>)
    ensures
        r.len() >= 6,
        r@[0]@ == "Registry: "@ + db_path@,
        r@[1]@ == Seq::<char>::empty(),
        r@[2]@ == "  Crates:    "@ + decimal(stats.crate_count as nat),
        r@[3]@ == "  Modules:   "@ + decimal(stats.module_count as nat),
        r@[4]@ == "  Symbols:   "@ + decimal(stats.symbol_count as nat),
        r@[5]@ == "  Rules:     "@ + decimal(stats.rule_count as nat),
{
    let mut lines: Vec<String> = Vec::new();
    lines.push(concat("Registry: ", db_path));
    lines.push(String::new());
    let c = count_string(stats.crate_count);
    lines.push(concat("  Crates:    ", c.as_str()));
    let m = count_string(stats.module_count);
    lines.push(concat("  Modules:   ", m.as_str()));
    let s = count_string(stats.symbol_count);
    lines.push(concat("  Symbols:   ", s.as_str()));
    let r = count_string(stats.rule_count);
    lines.push(concat("  Rules:     ", r.as_str()));
    let ghost first = lines@;
    push_group(&mut lines, "  Symbols by kind:", &stats.symbols_by_kind);
    assert(lines@.take(6) == first);
    push_group(&mut lines, "  Symbols by visibility:", &stats.symbols_by_visibility);
    assert(lines@.take(6) == first);
    push_group(&mut lines, "  Symbols by status:", &stats.symbols_by_status);
    assert(lines@.take(6) == first);
    assert(lines@[0] == first[0]);
    assert(lines@[1] == first[1]);
    assert(lines@[2] == first[2]);
    assert(lines@[3] == first[3]);
    assert(lines@[4] == first[4]);
    assert(lines@[5] == first[5]);
    lines
}

/// The actions of a plan file; a plan without actions is an error.
pub fn plan_actions(content: &str) -> (r: Result<Vec<PlannedAction>, String>)
    ensures
        r matches Ok(v) ==> v.len() > 0 && v@.map_values(|a: PlannedAction| a@) == crate::plan::plan_of(content@),
        r is Err <==> crate::plan::plan_of(content@).len() == 0,
{
    let actions = crate::plan::parse_plan(content)?;
    if actions.len() == 0 {
        assert(actions@.map_values(|a: PlannedAction| a@).len() == 0);
        return Err(owned("No actions found in plan. Expected lines like: CREATE: symbol_name in: path/to/file.rs"));
    }
    assert(actions@.map_values(|a: PlannedAction| a@).len() == actions.len());
    Ok(actions)
}

/// The summary line that `validate` prints.
pub fn plan_summary_line(s: &PlanSummary) -> (r: String)
    ensures
        r@ == "Plan: "@ + decimal(s.total_actions as nat) + " actions | "@ + decimal(s.safe as nat) + " safe | "@ + decimal(
            s.reuse as nat,
        ) + " reuse | "@ + decimal(s.violations as nat) + " violations | "@ + decimal(s.conflicts as nat)
            + " conflicts | "@ + decimal(s.ambiguous as nat) + " ambiguous"@,
{
    let mut r = owned("Plan: ");
    let a = count_string(s.total_actions);
    r.append(a.as_str());
    r.append(" actions | ");
    let b = count_string(s.safe);
    r.append(b.as_str());
    r.append(" safe | ");
    let c = count_string(s.reuse);
    r.append(c.as_str());
    r.append(" reuse | ");
    let d = count_string(s.violations);
    r.append(d.as_str());
    r.append(" violations | ");
    let e = count_string(s.conflicts);
    r.append(e.as_str());
    r.append(" conflicts | ");
    let f = count_string(s.ambiguous);
    r.append(f.as_str());
    r.append(" ambiguous");
    r
}

/// The message that `register-plan` prints.
pub fn registered_message(count: usize, actions: usize, agent: &str) -> (r: String)
    ensures
        r@ == "Registered "@ + decimal(count as nat) + " planned symbols from "@ + decimal(actions as nat) + " actions (agent: "@
            + agent@ + ")"@,
{
    let mut s = owned("Registered ");
    let c = count_string(count);
    s.append(c.as_str());
    s.append(" planned symbols from ");
    let a = count_string(actions);
    s.append(a.as_str());
    s.append(" actions (agent: ");
    s.append(agent);
    s.append(")");
    s
}

} // verus!

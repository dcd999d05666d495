//! The `query` command: one question put to the registry from the command
//! line, answered with advisories.
use vstd::prelude::*;

use crate::advisory::{advisories_view, Advisory, AdvisoryView, ExistingSymbolView};
use crate::db::SqlValue;
use crate::models::LinkedSymbol;
use crate::queries::{
    boundary_spec, check_wip, creation_spec, dependency_spec, places_unique, reuse_spec, suggest_reuse, symbols_of_rows,
    validate_boundary, validate_creation, validate_dependency, wip_spec, BoundaryRule, WipRow,
};
use crate::text::{concat, owned};

verus! {

/// The options of the `query` command.
#[derive(Debug, Clone)]
pub struct QueryArgs {
    /// A symbol name to look up.
    pub symbol: Option<String>,
    /// The path of the registry database.
    pub db: String,
    /// A symbol whose creation to validate.
    pub validate_creation: Option<String>,
    /// The target module of a creation.
    pub target: Option<String>,
    /// A type to look up.
    pub validate_dependency: Option<String>,
    /// A symbol whose placement to validate against a crate's rules.
    pub validate_boundary: Option<String>,
    /// The crate of a boundary validation.
    pub crate_name: Option<String>,
    /// A module path to check for work in progress.
    pub check_wip: Option<String>,
    /// A capability to find reusable symbols for.
    pub suggest_reuse: Option<String>,
}

/// The question that the options ask, the first given in this order: a
/// symbol lookup (a creation check with no target), a creation check, a type
/// lookup, a boundary check, a work-in-progress check, a reuse search.
pub enum QueryChoice {
    Creation { name: Seq<char>, target: Seq<char> },
    Dependency { name: Seq<char> },
    Boundary { name: Seq<char>, crate_name: Seq<char> },
    Wip { path: Seq<char> },
    Reuse { capability: Seq<char> },
    Nothing,
}

/// The question that the options ask (see `QueryChoice`); a missing target or
/// crate counts as empty.
pub open spec fn query_choice(a: QueryArgs) -> QueryChoice {
    if a.symbol is Some {
        QueryChoice::Creation { name: a.symbol->0@, target: Seq::empty() }
    } else if a.validate_creation is Some {
        QueryChoice::Creation {
            name: a.validate_creation->0@,
            target: match a.target {
                Some(t) => t@,
                None => Seq::empty(),
            },
        }
    } else if a.validate_dependency is Some {
        QueryChoice::Dependency { name: a.validate_dependency->0@ }
    } else if a.validate_boundary is Some {
        QueryChoice::Boundary {
            name: a.validate_boundary->0@,
            crate_name: match a.crate_name {
                Some(c) => c@,
                None => Seq::empty(),
            },
        }
    } else if a.check_wip is Some {
        QueryChoice::Wip { path: a.check_wip->0@ }
    } else if a.suggest_reuse is Some {
        QueryChoice::Reuse { capability: a.suggest_reuse->0@ }
    } else {
        QueryChoice::Nothing
    }
}

/// Whether advisories answer a question as the registry's queries state it.
pub open spec fn answers(c: QueryChoice, v: Seq<AdvisoryView>) -> bool {
    match c {
        QueryChoice::Creation { name, target } => v.len() == 1 && exists|e: Seq<Vec<SqlValue>>, f: Seq<Vec<SqlValue>>, l: Seq<LinkedSymbol>|
            v[0] == creation_spec(name, target, crate::queries::named(symbols_of_rows(e), name), symbols_of_rows(f), l),
        QueryChoice::Dependency { name } => v.len() == 1 && exists|rows: Seq<Vec<SqlValue>>, traits: Seq<Seq<char>>, reexport: Option<Seq<char>>|
            v[0] == dependency_spec(name, crate::queries::types_named(symbols_of_rows(rows), name), traits, reexport),
        QueryChoice::Boundary { name, crate_name } => exists|rules: Seq<BoundaryRule>, owners: Seq<(String, String)>, alts: Seq<(String, String)>|
            boundary_spec(name, crate_name, rules, owners, alts) == Some(v),
        QueryChoice::Wip { path } => (exists|rows: Seq<WipRow>, now: u64| v == wip_spec(rows, now))
            && crate::queries::wip_answer(path, v),
        QueryChoice::Reuse { capability } => exists|all: Seq<ExistingSymbolView>| places_unique(all) && v == reuse_spec(all),
        QueryChoice::Nothing => false,
    }
}

/// An option's text, or empty when it is missing.
fn text_or_empty(o: &Option<String>) -> (r: String)
    ensures
        r@ == match *o {
            Some(s) => s@,
            None => Seq::<char>::empty(),
        },
{
    match o {
        Some(s) => s.clone(),
        None => String::new(),
    }
}

/// Runs the `query` command against the registry at `args.db`, which exists
/// when `db_exists`: answers the question that the options ask with its
/// advisories. A missing registry, one that cannot be opened, and options
/// that ask nothing are errors.
pub fn run(args: &QueryArgs, db_exists: bool) -> (r: Result<Vec<Advisory>, String>)
    ensures
        !db_exists ==> (r matches Err(m) && m@ == "Registry not found at "@ + args.db@ + ". Run `rulest init` first."@),
        r matches Ok(v) ==> answers(query_choice(*args), advisories_view(v)),
        db_exists && query_choice(*args) is Nothing ==> (r matches Err(m) && (m@
            == "No query specified. Use --help for options."@ || crate::cli::starts_with_text(
            m@,
            "Failed to open registry: "@,
        ))),
{
    if !db_exists {
        let mut m = concat("Registry not found at ", args.db.as_str());
        m.append(". Run `rulest init` first.");
        return Err(m);
    }
    let conn = match crate::registry::open_registry(args.db.as_str()) {
        Ok(c) => c,
        Err(e) => {
            let t = e.message();
            let m = concat("Failed to open registry: ", t.as_str());
            assert(m@.take("Failed to open registry: "@.len() as int) =~= "Failed to open registry: "@);
            return Err(m);
        },
    };
    if let Some(name) = &args.symbol {
        let empty = String::new();
        let v = validate_creation(&conn, name.as_str(), empty.as_str())?;
        assert(empty@ == Seq::<char>::empty());
        return Ok(v);
    }
    if let Some(name) = &args.validate_creation {
        let target = text_or_empty(&args.target);
        let v = validate_creation(&conn, name.as_str(), target.as_str())?;
        return Ok(v);
    }
    if let Some(name) = &args.validate_dependency {
        let v = validate_dependency(&conn, name.as_str())?;
        return Ok(v);
    }
    if let Some(name) = &args.validate_boundary {
        let c = text_or_empty(&args.crate_name);
        let v = validate_boundary(&conn, name.as_str(), c.as_str())?;
        return Ok(v);
    }
    if let Some(path) = &args.check_wip {
        let v = check_wip(&conn, path.as_str())?;
        return Ok(v);
    }
    if let Some(desc) = &args.suggest_reuse {
        let v = suggest_reuse(&conn, desc.as_str())?;
        return Ok(v);
    }
    Err(owned("No query specified. Use --help for options."))
}

} // verus!

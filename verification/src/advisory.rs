//! The advisories that the registry answers queries with, and the planned
//! actions that an agent hands in.
use vstd::prelude::*;

verus! {

/// An existing symbol found during validation.
#[derive(Debug, Clone)]
pub struct ExistingSymbol {
    pub name: String,
    pub kind: String,
    pub mod_path: String,
    pub crate_name: String,
    pub signature: Option<String>,
    pub visibility: String,
    pub call_sites: Option<usize>,
    pub created_by: Option<String>,
    pub line_number: Option<u32>,
    pub scope: Option<String>,
    pub location: Option<String>,
}

/// A suggestion for which module to use instead.
#[derive(Debug, Clone)]
pub struct ModuleSuggestion {
    pub mod_path: String,
    pub crate_name: String,
    pub reason: String,
}

/// A planned action from a structured plan.
#[derive(Debug, Clone)]
pub struct PlannedAction {
    /// "create" or "modify"
    pub action: String,
    /// Symbol name (e.g. "calculate_settlement_fee")
    pub symbol: String,
    /// Target file path (e.g. "crates/trading/src/fees.rs")
    pub target: String,
    /// Target crate name (e.g. "trading"), derived from the target path
    pub crate_name: Option<String>,
    /// Symbol kind (e.g. "function"); a function when absent
    pub kind: Option<String>,
}

/// The plain content of a planned action.
pub struct PlannedActionView {
    pub action: Seq<char>,
    pub symbol: Seq<char>,
    pub target: Seq<char>,
    pub crate_name: Option<Seq<char>>,
    pub kind: Option<Seq<char>>,
}

/// The characters of an optional string.
pub open spec fn opt_view(o: Option<String>) -> Option<Seq<char>> {
    match o {
        Some(s) => Some(s@),
        None => None,
    }
}

impl View for PlannedAction {
    type V = PlannedActionView;

    open spec fn view(&self) -> PlannedActionView {
        PlannedActionView {
            action: self.action@,
            symbol: self.symbol@,
            target: self.target@,
            crate_name: opt_view(self.crate_name),
            kind: opt_view(self.kind),
        }
    }
}

/// Result of validating a single planned action.
#[derive(Debug, Clone)]
pub struct PlanValidationResult {
    pub action: PlannedAction,
    pub advisories: Vec<Advisory>,
}

/// Result of validating an entire plan.
#[derive(Debug, Clone)]
pub struct PlanReport {
    pub results: Vec<PlanValidationResult>,
    pub summary: PlanSummary,
}

/// Summary counts for a plan validation.
#[derive(Debug, Clone)]
pub struct PlanSummary {
    pub total_actions: usize,
    pub safe: usize,
    pub reuse: usize,
    pub violations: usize,
    pub conflicts: usize,
    pub ambiguous: usize,
}

/// Advisory responses from registry queries: each variant tells the agent what
/// to do given the state of the registry.
#[derive(Debug, Clone)]
pub enum Advisory {
    /// No conflicts: safe to create the new symbol.
    SafeToCreate { symbol: String, target: String },
    /// An existing symbol matches: reuse it instead of creating a new one.
    ReuseExisting { existing: ExistingSymbol, suggestion: String },
    /// A type already exists: use it via the prelude/re-export path.
    UseExistingType { existing: ExistingSymbol, prelude_path: String, traits: Vec<String> },
    /// Creating this symbol in the target crate violates an ownership rule.
    BoundaryViolation { rule: String, crate_name: String, suggestion: ModuleSuggestion },
    /// Another agent has planned or in-progress symbols in this area.
    WipConflict {
        agent: String,
        branch: Option<String>,
        symbols: Vec<String>,
        last_activity: Option<String>,
    },
    /// Several candidates match: the caller must disambiguate.
    AmbiguousMatch { candidates: Vec<ExistingSymbol> },
    /// A reusable trait exists: use it with this call pattern.
    ReuseWithPattern { trait_name: String, call_pattern: String, example: String, import: String },
}


/// The plain content of an existing symbol.
pub struct ExistingSymbolView {
    pub name: Seq<char>,
    pub kind: Seq<char>,
    pub mod_path: Seq<char>,
    pub crate_name: Seq<char>,
    pub signature: Option<Seq<char>>,
    pub visibility: Seq<char>,
    pub call_sites: Option<usize>,
    pub created_by: Option<Seq<char>>,
    pub line_number: Option<u32>,
    pub scope: Option<Seq<char>>,
    pub location: Option<Seq<char>>,
}

impl View for ExistingSymbol {
    type V = ExistingSymbolView;

    open spec fn view(&self) -> ExistingSymbolView {
        ExistingSymbolView {
            name: self.name@,
            kind: self.kind@,
            mod_path: self.mod_path@,
            crate_name: self.crate_name@,
            signature: opt_view(self.signature),
            visibility: self.visibility@,
            call_sites: self.call_sites,
            created_by: opt_view(self.created_by),
            line_number: self.line_number,
            scope: opt_view(self.scope),
            location: opt_view(self.location),
        }
    }
}

/// The plain content of a module suggestion.
pub struct ModuleSuggestionView {
    pub mod_path: Seq<char>,
    pub crate_name: Seq<char>,
    pub reason: Seq<char>,
}

impl View for ModuleSuggestion {
    type V = ModuleSuggestionView;

    open spec fn view(&self) -> ModuleSuggestionView {
        ModuleSuggestionView { mod_path: self.mod_path@, crate_name: self.crate_name@, reason: self.reason@ }
    }
}

/// The characters of each string of a list.
pub open spec fn strings_view(v: Vec<String>) -> Seq<Seq<char>> {
    v@.map_values(|s: String| s@)
}

/// The plain content of each symbol of a list.
pub open spec fn symbols_view(v: Vec<ExistingSymbol>) -> Seq<ExistingSymbolView> {
    v@.map_values(|e: ExistingSymbol| e@)
}

/// The plain content of an advisory.
pub enum AdvisoryView {
    SafeToCreate { symbol: Seq<char>, target: Seq<char> },
    ReuseExisting { existing: ExistingSymbolView, suggestion: Seq<char> },
    UseExistingType { existing: ExistingSymbolView, prelude_path: Seq<char>, traits: Seq<Seq<char>> },
    BoundaryViolation { rule: Seq<char>, crate_name: Seq<char>, suggestion: ModuleSuggestionView },
    WipConflict {
        agent: Seq<char>,
        branch: Option<Seq<char>>,
        symbols: Seq<Seq<char>>,
        last_activity: Option<Seq<char>>,
    },
    AmbiguousMatch { candidates: Seq<ExistingSymbolView> },
    ReuseWithPattern { trait_name: Seq<char>, call_pattern: Seq<char>, example: Seq<char>, import: Seq<char> },
}

impl View for Advisory {
    type V = AdvisoryView;

    open spec fn view(&self) -> AdvisoryView {
        match self {
            Advisory::SafeToCreate { symbol, target } => AdvisoryView::SafeToCreate { symbol: symbol@, target: target@ },
            Advisory::ReuseExisting { existing, suggestion } => AdvisoryView::ReuseExisting {
                existing: existing@,
                suggestion: suggestion@,
            },
            Advisory::UseExistingType { existing, prelude_path, traits } => AdvisoryView::UseExistingType {
                existing: existing@,
                prelude_path: prelude_path@,
                traits: strings_view(*traits),
            },
            Advisory::BoundaryViolation { rule, crate_name, suggestion } => AdvisoryView::BoundaryViolation {
                rule: rule@,
                crate_name: crate_name@,
                suggestion: suggestion@,
            },
            Advisory::WipConflict { agent, branch, symbols, last_activity } => AdvisoryView::WipConflict {
                agent: agent@,
                branch: opt_view(*branch),
                symbols: strings_view(*symbols),
                last_activity: opt_view(*last_activity),
            },
            Advisory::AmbiguousMatch { candidates } => AdvisoryView::AmbiguousMatch { candidates: symbols_view(*candidates) },
            Advisory::ReuseWithPattern { trait_name, call_pattern, example, import } => AdvisoryView::ReuseWithPattern {
                trait_name: trait_name@,
                call_pattern: call_pattern@,
                example: example@,
                import: import@,
            },
        }
    }
}

/// The plain content of each advisory of a list.
pub open spec fn advisories_view(v: Vec<Advisory>) -> Seq<AdvisoryView> {
    v@.map_values(|a: Advisory| a@)
}

/// A copy of an optional string.
fn copy_opt(o: &Option<String>) -> (r: Option<String>)
    ensures
        opt_view(r) == opt_view(*o),
{
    match o {
        Some(s) => Some(s.clone()),
        None => None,
    }
}

/// A copy of a list of strings.
pub fn copy_strings(v: &Vec<String>) -> (r: Vec<String>)
    ensures
        strings_view(r) == strings_view(*v),
{
    let mut r: Vec<String> = Vec::new();
    let mut i: usize = 0;
    while i < v.len()
        invariant
            i <= v.len(),
            r@.map_values(|s: String| s@) == v@.take(i as int).map_values(|s: String| s@),
        decreases v.len() - i,
    {
        r.push(v[i].clone());
        i = i + 1;
        assert(v@.take(i as int).map_values(|s: String| s@) == v@.take(i - 1).map_values(|s: String| s@).push(v@[i - 1]@));
    }
    assert(v@.take(v.len() as int) == v@);
    r
}

impl ExistingSymbol {
    /// A copy of the symbol.
    pub fn copy(&self) -> (r: ExistingSymbol)
        ensures
            r@ == self@,
    {
        ExistingSymbol {
            name: self.name.clone(),
            kind: self.kind.clone(),
            mod_path: self.mod_path.clone(),
            crate_name: self.crate_name.clone(),
            signature: copy_opt(&self.signature),
            visibility: self.visibility.clone(),
            call_sites: self.call_sites,
            created_by: copy_opt(&self.created_by),
            line_number: self.line_number,
            scope: copy_opt(&self.scope),
            location: copy_opt(&self.location),
        }
    }
}

/// A copy of a list of symbols.
pub fn copy_symbols(v: &Vec<ExistingSymbol>) -> (r: Vec<ExistingSymbol>)
    ensures
        symbols_view(r) == symbols_view(*v),
{
    let mut r: Vec<ExistingSymbol> = Vec::new();
    let mut i: usize = 0;
    while i < v.len()
        invariant
            i <= v.len(),
            r@.map_values(|e: ExistingSymbol| e@) == v@.take(i as int).map_values(|e: ExistingSymbol| e@),
        decreases v.len() - i,
    {
        r.push(v[i].copy());
        i = i + 1;
        assert(v@.take(i as int).map_values(|e: ExistingSymbol| e@) == v@.take(i - 1).map_values(|e: ExistingSymbol| e@).push(v@[i - 1]@));
    }
    assert(v@.take(v.len() as int) == v@);
    r
}

impl Advisory {
    /// A copy of the advisory.
    pub fn copy(&self) -> (r: Advisory)
        ensures
            r@ == self@,
    {
        match self {
            Advisory::SafeToCreate { symbol, target } => Advisory::SafeToCreate { symbol: symbol.clone(), target: target.clone() },
            Advisory::ReuseExisting { existing, suggestion } => Advisory::ReuseExisting {
                existing: existing.copy(),
                suggestion: suggestion.clone(),
            },
            Advisory::UseExistingType { existing, prelude_path, traits } => Advisory::UseExistingType {
                existing: existing.copy(),
                prelude_path: prelude_path.clone(),
                traits: copy_strings(traits),
            },
            Advisory::BoundaryViolation { rule, crate_name, suggestion } => Advisory::BoundaryViolation {
                rule: rule.clone(),
                crate_name: crate_name.clone(),
                suggestion: ModuleSuggestion {
                    mod_path: suggestion.mod_path.clone(),
                    crate_name: suggestion.crate_name.clone(),
                    reason: suggestion.reason.clone(),
                },
            },
            Advisory::WipConflict { agent, branch, symbols, last_activity } => Advisory::WipConflict {
                agent: agent.clone(),
                branch: copy_opt(branch),
                symbols: copy_strings(symbols),
                last_activity: copy_opt(last_activity),
            },
            Advisory::AmbiguousMatch { candidates } => Advisory::AmbiguousMatch { candidates: copy_symbols(candidates) },
            Advisory::ReuseWithPattern { trait_name, call_pattern, example, import } => Advisory::ReuseWithPattern {
                trait_name: trait_name.clone(),
                call_pattern: call_pattern.clone(),
                example: example.clone(),
                import: import.clone(),
            },
        }
    }
}

impl PlannedAction {
    /// A copy of the action.
    pub fn copy(&self) -> (r: PlannedAction)
        ensures
            r@ == self@,
    {
        PlannedAction {
            action: self.action.clone(),
            symbol: self.symbol.clone(),
            target: self.target.clone(),
            crate_name: copy_opt(&self.crate_name),
            kind: copy_opt(&self.kind),
        }
    }
}

} // verus!

//! The data model of the architecture registry: crates, modules, symbols,
//! relationships, contracts and ownership rules, with the textual names under
//! which their kinds are stored.
use vstd::prelude::*;

use crate::text::{concat, str_eq};

verus! {
/// The kind of a registered symbol.
#[derive(Debug, Clone, Copy, PartialEq, Eq, Structural)]
pub enum SymbolKind {
    Function,
    Struct,
    Enum,
    Trait,
    TypeAlias,
    Const,
    Static,
    Macro,
    ReExport,
    Class,
    Interface,
    FfiFunction,
}

impl SymbolKind {
    /// The name under which this symbol kind is stored.
    pub open spec fn text(self) -> Seq<char> {
        match self {
            SymbolKind::Function => "function"@,
            SymbolKind::Struct => "struct"@,
            SymbolKind::Enum => "enum"@,
            SymbolKind::Trait => "trait"@,
            SymbolKind::TypeAlias => "type_alias"@,
            SymbolKind::Const => "const"@,
            SymbolKind::Static => "static"@,
            SymbolKind::Macro => "macro"@,
            SymbolKind::ReExport => "re_export"@,
            SymbolKind::Class => "class"@,
            SymbolKind::Interface => "interface"@,
            SymbolKind::FfiFunction => "ffi_function"@,
        }
    }

    /// The symbol kind stored under the name `s`, if any.
    pub open spec fn from_text(s: Seq<char>) -> Option<SymbolKind> {
        if s == "function"@ {
            Some(SymbolKind::Function)
        } else if s == "struct"@ {
            Some(SymbolKind::Struct)
        } else if s == "enum"@ {
            Some(SymbolKind::Enum)
        } else if s == "trait"@ {
            Some(SymbolKind::Trait)
        } else if s == "type_alias"@ {
            Some(SymbolKind::TypeAlias)
        } else if s == "const"@ {
            Some(SymbolKind::Const)
        } else if s == "static"@ {
            Some(SymbolKind::Static)
        } else if s == "macro"@ {
            Some(SymbolKind::Macro)
        } else if s == "re_export"@ {
            Some(SymbolKind::ReExport)
        } else if s == "class"@ {
            Some(SymbolKind::Class)
        } else if s == "interface"@ {
            Some(SymbolKind::Interface)
        } else if s == "ffi_function"@ {
            Some(SymbolKind::FfiFunction)
        } else {
            None
        }
    }

    /// The message of the error for a name that is no symbol kind.
    pub open spec fn error_text(s: Seq<char>) -> Seq<char> {
        "Invalid symbol kind: '"@ + s + "'"@
    }

    /// The stored name of this symbol kind.
    pub fn as_str(&self) -> (r: &'static str)
        ensures
            r@ == self.text(),
    {
        match self {
            SymbolKind::Function => "function",
            SymbolKind::Struct => "struct",
            SymbolKind::Enum => "enum",
            SymbolKind::Trait => "trait",
            SymbolKind::TypeAlias => "type_alias",
            SymbolKind::Const => "const",
            SymbolKind::Static => "static",
            SymbolKind::Macro => "macro",
            SymbolKind::ReExport => "re_export",
            SymbolKind::Class => "class",
            SymbolKind::Interface => "interface",
            SymbolKind::FfiFunction => "ffi_function",
        }
    }

    /// Reads a symbol kind from its stored name.
    pub fn parse(s: &str) -> (r: Result<SymbolKind, String>)
        ensures
            match r {
                Ok(k) => SymbolKind::from_text(s@) == Some(k),
                Err(m) => SymbolKind::from_text(s@).is_none() && m@ == SymbolKind::error_text(s@),
            },
    {
        if str_eq(s, "function") {
            return Ok(SymbolKind::Function);
        }
        if str_eq(s, "struct") {
            return Ok(SymbolKind::Struct);
        }
        if str_eq(s, "enum") {
            return Ok(SymbolKind::Enum);
        }
        if str_eq(s, "trait") {
            return Ok(SymbolKind::Trait);
        }
        if str_eq(s, "type_alias") {
            return Ok(SymbolKind::TypeAlias);
        }
        if str_eq(s, "const") {
            return Ok(SymbolKind::Const);
        }
        if str_eq(s, "static") {
            return Ok(SymbolKind::Static);
        }
        if str_eq(s, "macro") {
            return Ok(SymbolKind::Macro);
        }
        if str_eq(s, "re_export") {
            return Ok(SymbolKind::ReExport);
        }
        if str_eq(s, "class") {
            return Ok(SymbolKind::Class);
        }
        if str_eq(s, "interface") {
            return Ok(SymbolKind::Interface);
        }
        if str_eq(s, "ffi_function") {
            return Ok(SymbolKind::FfiFunction);
        }
        let m = concat("Invalid symbol kind: '", s);
        Err(concat(m.as_str(), "'"))
    }
}

/// Reading back the stored name of a symbol kind gives the same symbol kind, so two
/// different kinds never share a name.
pub proof fn lemma_symbol_kind_roundtrip(k: SymbolKind)
    ensures
        SymbolKind::from_text(k.text()) == Some(k),
{
    reveal_strlit("function");
    reveal_strlit("struct");
    reveal_strlit("enum");
    reveal_strlit("trait");
    reveal_strlit("type_alias");
    reveal_strlit("const");
    reveal_strlit("static");
    reveal_strlit("macro");
    reveal_strlit("re_export");
    reveal_strlit("class");
    reveal_strlit("interface");
    reveal_strlit("ffi_function");
    assert("function"@.len() != "struct"@.len());
    assert("function"@.len() != "enum"@.len());
    assert("function"@.len() != "trait"@.len());
    assert("function"@.len() != "type_alias"@.len());
    assert("function"@.len() != "const"@.len());
    assert("function"@.len() != "static"@.len());
    assert("function"@.len() != "macro"@.len());
    assert("function"@.len() != "re_export"@.len());
    assert("function"@.len() != "class"@.len());
    assert("function"@.len() != "interface"@.len());
    assert("function"@.len() != "ffi_function"@.len());
    assert("struct"@.len() != "enum"@.len());
    assert("struct"@.len() != "trait"@.len());
    assert("struct"@.len() != "type_alias"@.len());
    assert("struct"@.len() != "const"@.len());
    assert("struct"@[2] != "static"@[2]);
    assert("struct"@.len() != "macro"@.len());
    assert("struct"@.len() != "re_export"@.len());
    assert("struct"@.len() != "class"@.len());
    assert("struct"@.len() != "interface"@.len());
    assert("struct"@.len() != "ffi_function"@.len());
    assert("enum"@.len() != "trait"@.len());
    assert("enum"@.len() != "type_alias"@.len());
    assert("enum"@.len() != "const"@.len());
    assert("enum"@.len() != "static"@.len());
    assert("enum"@.len() != "macro"@.len());
    assert("enum"@.len() != "re_export"@.len());
    assert("enum"@.len() != "class"@.len());
    assert("enum"@.len() != "interface"@.len());
    assert("enum"@.len() != "ffi_function"@.len());
    assert("trait"@.len() != "type_alias"@.len());
    assert("trait"@[0] != "const"@[0]);
    assert("trait"@.len() != "static"@.len());
    assert("trait"@[0] != "macro"@[0]);
    assert("trait"@.len() != "re_export"@.len());
    assert("trait"@[0] != "class"@[0]);
    assert("trait"@.len() != "interface"@.len());
    assert("trait"@.len() != "ffi_function"@.len());
    assert("type_alias"@.len() != "const"@.len());
    assert("type_alias"@.len() != "static"@.len());
    assert("type_alias"@.len() != "macro"@.len());
    assert("type_alias"@.len() != "re_export"@.len());
    assert("type_alias"@.len() != "class"@.len());
    assert("type_alias"@.len() != "interface"@.len());
    assert("type_alias"@.len() != "ffi_function"@.len());
    assert("const"@.len() != "static"@.len());
    assert("const"@[0] != "macro"@[0]);
    assert("const"@.len() != "re_export"@.len());
    assert("const"@[1] != "class"@[1]);
    assert("const"@.len() != "interface"@.len());
    assert("const"@.len() != "ffi_function"@.len());
    assert("static"@.len() != "macro"@.len());
    assert("static"@.len() != "re_export"@.len());
    assert("static"@.len() != "class"@.len());
    assert("static"@.len() != "interface"@.len());
    assert("static"@.len() != "ffi_function"@.len());
    assert("macro"@.len() != "re_export"@.len());
    assert("macro"@[0] != "class"@[0]);
    assert("macro"@.len() != "interface"@.len());
    assert("macro"@.len() != "ffi_function"@.len());
    assert("re_export"@.len() != "class"@.len());
    assert("re_export"@[0] != "interface"@[0]);
    assert("re_export"@.len() != "ffi_function"@.len());
    assert("class"@.len() != "interface"@.len());
    assert("class"@.len() != "ffi_function"@.len());
    assert("interface"@.len() != "ffi_function"@.len());
}

impl std::str::FromStr for SymbolKind {
    type Err = String;

    fn from_str(s: &str) -> (r: Result<SymbolKind, String>)
        ensures
            match r {
                Ok(k) => SymbolKind::from_text(s@) == Some(k),
                Err(m) => SymbolKind::from_text(s@).is_none() && m@ == SymbolKind::error_text(s@),
            },
    {
        SymbolKind::parse(s)
    }
}

/// The visibility of a symbol.
#[derive(Debug, Clone, Copy, PartialEq, Eq, Structural)]
pub enum Visibility {
    Public,
    CrateLocal,
    Private,
}

impl Visibility {
    /// The name under which this visibility is stored.
    pub open spec fn text(self) -> Seq<char> {
        match self {
            Visibility::Public => "public"@,
            Visibility::CrateLocal => "crate_local"@,
            Visibility::Private => "private"@,
        }
    }

    /// The visibility stored under the name `s`, if any.
    pub open spec fn from_text(s: Seq<char>) -> Option<Visibility> {
        if s == "public"@ {
            Some(Visibility::Public)
        } else if s == "crate_local"@ {
            Some(Visibility::CrateLocal)
        } else if s == "private"@ {
            Some(Visibility::Private)
        } else {
            None
        }
    }

    /// The message of the error for a name that is no visibility.
    pub open spec fn error_text(s: Seq<char>) -> Seq<char> {
        "Invalid visibility: '"@ + s + "'"@
    }

    /// The stored name of this visibility.
    pub fn as_str(&self) -> (r: &'static str)
        ensures
            r@ == self.text(),
    {
        match self {
            Visibility::Public => "public",
            Visibility::CrateLocal => "crate_local",
            Visibility::Private => "private",
        }
    }

    /// Reads a visibility from its stored name.
    pub fn parse(s: &str) -> (r: Result<Visibility, String>)
        ensures
            match r {
                Ok(k) => Visibility::from_text(s@) == Some(k),
                Err(m) => Visibility::from_text(s@).is_none() && m@ == Visibility::error_text(s@),
            },
    {
        if str_eq(s, "public") {
            return Ok(Visibility::Public);
        }
        if str_eq(s, "crate_local") {
            return Ok(Visibility::CrateLocal);
        }
        if str_eq(s, "private") {
            return Ok(Visibility::Private);
        }
        let m = concat("Invalid visibility: '", s);
        Err(concat(m.as_str(), "'"))
    }
}

/// Reading back the stored name of a visibility gives the same visibility, so two
/// different kinds never share a name.
pub proof fn lemma_visibility_roundtrip(k: Visibility)
    ensures
        Visibility::from_text(k.text()) == Some(k),
{
    reveal_strlit("public");
    reveal_strlit("crate_local");
    reveal_strlit("private");
    assert("public"@.len() != "crate_local"@.len());
    assert("public"@.len() != "private"@.len());
    assert("crate_local"@.len() != "private"@.len());
}

impl std::str::FromStr for Visibility {
    type Err = String;

    fn from_str(s: &str) -> (r: Result<Visibility, String>)
        ensures
            match r {
                Ok(k) => Visibility::from_text(s@) == Some(k),
                Err(m) => Visibility::from_text(s@).is_none() && m@ == Visibility::error_text(s@),
            },
    {
        Visibility::parse(s)
    }
}

/// The lifecycle status of a symbol.
#[derive(Debug, Clone, Copy, PartialEq, Eq, Structural)]
pub enum SymbolStatus {
    Stable,
    Planned,
    Wip,
    Deprecated,
}

impl SymbolStatus {
    /// The name under which this symbol status is stored.
    pub open spec fn text(self) -> Seq<char> {
        match self {
            SymbolStatus::Stable => "stable"@,
            SymbolStatus::Planned => "planned"@,
            SymbolStatus::Wip => "wip"@,
            SymbolStatus::Deprecated => "deprecated"@,
        }
    }

    /// The symbol status stored under the name `s`, if any.
    pub open spec fn from_text(s: Seq<char>) -> Option<SymbolStatus> {
        if s == "stable"@ {
            Some(SymbolStatus::Stable)
        } else if s == "planned"@ {
            Some(SymbolStatus::Planned)
        } else if s == "wip"@ {
            Some(SymbolStatus::Wip)
        } else if s == "deprecated"@ {
            Some(SymbolStatus::Deprecated)
        } else {
            None
        }
    }

    /// The message of the error for a name that is no symbol status.
    pub open spec fn error_text(s: Seq<char>) -> Seq<char> {
        "Invalid symbol status: '"@ + s + "'"@
    }

    /// The stored name of this symbol status.
    pub fn as_str(&self) -> (r: &'static str)
        ensures
            r@ == self.text(),
    {
        match self {
            SymbolStatus::Stable => "stable",
            SymbolStatus::Planned => "planned",
            SymbolStatus::Wip => "wip",
            SymbolStatus::Deprecated => "deprecated",
        }
    }

    /// Reads a symbol status from its stored name.
    pub fn parse(s: &str) -> (r: Result<SymbolStatus, String>)
        ensures
            match r {
                Ok(k) => SymbolStatus::from_text(s@) == Some(k),
                Err(m) => SymbolStatus::from_text(s@).is_none() && m@ == SymbolStatus::error_text(s@),
            },
    {
        if str_eq(s, "stable") {
            return Ok(SymbolStatus::Stable);
        }
        if str_eq(s, "planned") {
            return Ok(SymbolStatus::Planned);
        }
        if str_eq(s, "wip") {
            return Ok(SymbolStatus::Wip);
        }
        if str_eq(s, "deprecated") {
            return Ok(SymbolStatus::Deprecated);
        }
        let m = concat("Invalid symbol status: '", s);
        Err(concat(m.as_str(), "'"))
    }
}

/// Reading back the stored name of a symbol status gives the same symbol status, so two
/// different kinds never share a name.
pub proof fn lemma_symbol_status_roundtrip(k: SymbolStatus)
    ensures
        SymbolStatus::from_text(k.text()) == Some(k),
{
    reveal_strlit("stable");
    reveal_strlit("planned");
    reveal_strlit("wip");
    reveal_strlit("deprecated");
    assert("stable"@.len() != "planned"@.len());
    assert("stable"@.len() != "wip"@.len());
    assert("stable"@.len() != "deprecated"@.len());
    assert("planned"@.len() != "wip"@.len());
    assert("planned"@.len() != "deprecated"@.len());
    assert("wip"@.len() != "deprecated"@.len());
}

impl std::str::FromStr for SymbolStatus {
    type Err = String;

    fn from_str(s: &str) -> (r: Result<SymbolStatus, String>)
        ensures
            match r {
                Ok(k) => SymbolStatus::from_text(s@) == Some(k),
                Err(m) => SymbolStatus::from_text(s@).is_none() && m@ == SymbolStatus::error_text(s@),
            },
    {
        SymbolStatus::parse(s)
    }
}

/// The kind of a relationship between two symbols.
#[derive(Debug, Clone, Copy, PartialEq, Eq, Structural)]
pub enum RelationshipKind {
    Calls,
    Implements,
    DependsOn,
}

impl RelationshipKind {
    /// The name under which this relationship kind is stored.
    pub open spec fn text(self) -> Seq<char> {
        match self {
            RelationshipKind::Calls => "calls"@,
            RelationshipKind::Implements => "implements"@,
            RelationshipKind::DependsOn => "depends_on"@,
        }
    }

    /// The relationship kind stored under the name `s`, if any.
    pub open spec fn from_text(s: Seq<char>) -> Option<RelationshipKind> {
        if s == "calls"@ {
            Some(RelationshipKind::Calls)
        } else if s == "implements"@ {
            Some(RelationshipKind::Implements)
        } else if s == "depends_on"@ {
            Some(RelationshipKind::DependsOn)
        } else {
            None
        }
    }

    /// The message of the error for a name that is no relationship kind.
    pub open spec fn error_text(s: Seq<char>) -> Seq<char> {
        "Invalid relationship kind: '"@ + s + "'"@
    }

    /// The stored name of this relationship kind.
    pub fn as_str(&self) -> (r: &'static str)
        ensures
            r@ == self.text(),
    {
        match self {
            RelationshipKind::Calls => "calls",
            RelationshipKind::Implements => "implements",
            RelationshipKind::DependsOn => "depends_on",
        }
    }

    /// Reads a relationship kind from its stored name.
    pub fn parse(s: &str) -> (r: Result<RelationshipKind, String>)
        ensures
            match r {
                Ok(k) => RelationshipKind::from_text(s@) == Some(k),
                Err(m) => RelationshipKind::from_text(s@).is_none() && m@ == RelationshipKind::error_text(s@),
            },
    {
        if str_eq(s, "calls") {
            return Ok(RelationshipKind::Calls);
        }
        if str_eq(s, "implements") {
            return Ok(RelationshipKind::Implements);
        }
        if str_eq(s, "depends_on") {
            return Ok(RelationshipKind::DependsOn);
        }
        let m = concat("Invalid relationship kind: '", s);
        Err(concat(m.as_str(), "'"))
    }
}

/// Reading back the stored name of a relationship kind gives the same relationship kind, so two
/// different kinds never share a name.
pub proof fn lemma_relationship_kind_roundtrip(k: RelationshipKind)
    ensures
        RelationshipKind::from_text(k.text()) == Some(k),
{
    reveal_strlit("calls");
    reveal_strlit("implements");
    reveal_strlit("depends_on");
    assert("calls"@.len() != "implements"@.len());
    assert("calls"@.len() != "depends_on"@.len());
    assert("implements"@[0] != "depends_on"@[0]);
}

impl std::str::FromStr for RelationshipKind {
    type Err = String;

    fn from_str(s: &str) -> (r: Result<RelationshipKind, String>)
        ensures
            match r {
                Ok(k) => RelationshipKind::from_text(s@) == Some(k),
                Err(m) => RelationshipKind::from_text(s@).is_none() && m@ == RelationshipKind::error_text(s@),
            },
    {
        RelationshipKind::parse(s)
    }
}

/// The kind of a contract attached to a symbol.
#[derive(Debug, Clone, Copy, PartialEq, Eq, Structural)]
pub enum ContractKind {
    Precondition,
    Postcondition,
    Invariant,
}

impl ContractKind {
    /// The name under which this contract kind is stored.
    pub open spec fn text(self) -> Seq<char> {
        match self {
            ContractKind::Precondition => "precondition"@,
            ContractKind::Postcondition => "postcondition"@,
            ContractKind::Invariant => "invariant"@,
        }
    }

    /// The contract kind stored under the name `s`, if any.
    pub open spec fn from_text(s: Seq<char>) -> Option<ContractKind> {
        if s == "precondition"@ {
            Some(ContractKind::Precondition)
        } else if s == "postcondition"@ {
            Some(ContractKind::Postcondition)
        } else if s == "invariant"@ {
            Some(ContractKind::Invariant)
        } else {
            None
        }
    }

    /// The message of the error for a name that is no contract kind.
    pub open spec fn error_text(s: Seq<char>) -> Seq<char> {
        "Invalid contract kind: '"@ + s + "'"@
    }

    /// The stored name of this contract kind.
    pub fn as_str(&self) -> (r: &'static str)
        ensures
            r@ == self.text(),
    {
        match self {
            ContractKind::Precondition => "precondition",
            ContractKind::Postcondition => "postcondition",
            ContractKind::Invariant => "invariant",
        }
    }

    /// Reads a contract kind from its stored name.
    pub fn parse(s: &str) -> (r: Result<ContractKind, String>)
        ensures
            match r {
                Ok(k) => ContractKind::from_text(s@) == Some(k),
                Err(m) => ContractKind::from_text(s@).is_none() && m@ == ContractKind::error_text(s@),
            },
    {
        if str_eq(s, "precondition") {
            return Ok(ContractKind::Precondition);
        }
        if str_eq(s, "postcondition") {
            return Ok(ContractKind::Postcondition);
        }
        if str_eq(s, "invariant") {
            return Ok(ContractKind::Invariant);
        }
        let m = concat("Invalid contract kind: '", s);
        Err(concat(m.as_str(), "'"))
    }
}

/// Reading back the stored name of a contract kind gives the same contract kind, so two
/// different kinds never share a name.
pub proof fn lemma_contract_kind_roundtrip(k: ContractKind)
    ensures
        ContractKind::from_text(k.text()) == Some(k),
{
    reveal_strlit("precondition");
    reveal_strlit("postcondition");
    reveal_strlit("invariant");
    assert("precondition"@.len() != "postcondition"@.len());
    assert("precondition"@.len() != "invariant"@.len());
    assert("postcondition"@.len() != "invariant"@.len());
}

impl std::str::FromStr for ContractKind {
    type Err = String;

    fn from_str(s: &str) -> (r: Result<ContractKind, String>)
        ensures
            match r {
                Ok(k) => ContractKind::from_text(s@) == Some(k),
                Err(m) => ContractKind::from_text(s@).is_none() && m@ == ContractKind::error_text(s@),
            },
    {
        ContractKind::parse(s)
    }
}

/// The kind of an ownership rule.
#[derive(Debug, Clone, Copy, PartialEq, Eq, Structural)]
pub enum OwnershipRuleKind {
    MustOwn,
    MustNot,
    SharedWith,
}

impl OwnershipRuleKind {
    /// The name under which this ownership rule kind is stored.
    pub open spec fn text(self) -> Seq<char> {
        match self {
            OwnershipRuleKind::MustOwn => "must_own"@,
            OwnershipRuleKind::MustNot => "must_not"@,
            OwnershipRuleKind::SharedWith => "shared_with"@,
        }
    }

    /// The ownership rule kind stored under the name `s`, if any.
    pub open spec fn from_text(s: Seq<char>) -> Option<OwnershipRuleKind> {
        if s == "must_own"@ {
            Some(OwnershipRuleKind::MustOwn)
        } else if s == "must_not"@ {
            Some(OwnershipRuleKind::MustNot)
        } else if s == "shared_with"@ {
            Some(OwnershipRuleKind::SharedWith)
        } else {
            None
        }
    }

    /// The message of the error for a name that is no ownership rule kind.
    pub open spec fn error_text(s: Seq<char>) -> Seq<char> {
        "Invalid ownership rule kind: '"@ + s + "'. Use: must_own, must_not, shared_with"@
    }

    /// The stored name of this ownership rule kind.
    pub fn as_str(&self) -> (r: &'static str)
        ensures
            r@ == self.text(),
    {
        match self {
            OwnershipRuleKind::MustOwn => "must_own",
            OwnershipRuleKind::MustNot => "must_not",
            OwnershipRuleKind::SharedWith => "shared_with",
        }
    }

    /// Reads a ownership rule kind from its stored name.
    pub fn parse(s: &str) -> (r: Result<OwnershipRuleKind, String>)
        ensures
            match r {
                Ok(k) => OwnershipRuleKind::from_text(s@) == Some(k),
                Err(m) => OwnershipRuleKind::from_text(s@).is_none() && m@ == OwnershipRuleKind::error_text(s@),
            },
    {
        if str_eq(s, "must_own") {
            return Ok(OwnershipRuleKind::MustOwn);
        }
        if str_eq(s, "must_not") {
            return Ok(OwnershipRuleKind::MustNot);
        }
        if str_eq(s, "shared_with") {
            return Ok(OwnershipRuleKind::SharedWith);
        }
        let m = concat("Invalid ownership rule kind: '", s);
        Err(concat(m.as_str(), "'. Use: must_own, must_not, shared_with"))
    }
}

/// Reading back the stored name of a ownership rule kind gives the same ownership rule kind, so two
/// different kinds never share a name.
pub proof fn lemma_ownership_rule_kind_roundtrip(k: OwnershipRuleKind)
    ensures
        OwnershipRuleKind::from_text(k.text()) == Some(k),
{
    reveal_strlit("must_own");
    reveal_strlit("must_not");
    reveal_strlit("shared_with");
    assert("must_own"@[5] != "must_not"@[5]);
    assert("must_own"@.len() != "shared_with"@.len());
    assert("must_not"@.len() != "shared_with"@.len());
}

impl std::str::FromStr for OwnershipRuleKind {
    type Err = String;

    fn from_str(s: &str) -> (r: Result<OwnershipRuleKind, String>)
        ensures
            match r {
                Ok(k) => OwnershipRuleKind::from_text(s@) == Some(k),
                Err(m) => OwnershipRuleKind::from_text(s@).is_none() && m@ == OwnershipRuleKind::error_text(s@),
            },
    {
        OwnershipRuleKind::parse(s)
    }
}

/// The source language of a module.
#[derive(Debug, Clone, Copy, PartialEq, Eq, Structural)]
pub enum Language {
    Rust,
    TypeScript,
}

impl Language {
    /// The name under which this language is stored.
    pub open spec fn text(self) -> Seq<char> {
        match self {
            Language::Rust => "rust"@,
            Language::TypeScript => "typescript"@,
        }
    }

    /// The language stored under the name `s`, if any.
    pub open spec fn from_text(s: Seq<char>) -> Option<Language> {
        if s == "rust"@ {
            Some(Language::Rust)
        } else if s == "typescript"@ {
            Some(Language::TypeScript)
        } else {
            None
        }
    }

    /// The message of the error for a name that is no language.
    pub open spec fn error_text(s: Seq<char>) -> Seq<char> {
        "Invalid language: '"@ + s + "'"@
    }

    /// The stored name of this language.
    pub fn as_str(&self) -> (r: &'static str)
        ensures
            r@ == self.text(),
    {
        match self {
            Language::Rust => "rust",
            Language::TypeScript => "typescript",
        }
    }

    /// Reads a language from its stored name.
    pub fn parse(s: &str) -> (r: Result<Language, String>)
        ensures
            match r {
                Ok(k) => Language::from_text(s@) == Some(k),
                Err(m) => Language::from_text(s@).is_none() && m@ == Language::error_text(s@),
            },
    {
        if str_eq(s, "rust") {
            return Ok(Language::Rust);
        }
        if str_eq(s, "typescript") {
            return Ok(Language::TypeScript);
        }
        let m = concat("Invalid language: '", s);
        Err(concat(m.as_str(), "'"))
    }
}

/// Reading back the stored name of a language gives the same language, so two
/// different kinds never share a name.
pub proof fn lemma_language_roundtrip(k: Language)
    ensures
        Language::from_text(k.text()) == Some(k),
{
    reveal_strlit("rust");
    reveal_strlit("typescript");
    assert("rust"@.len() != "typescript"@.len());
}

impl std::str::FromStr for Language {
    type Err = String;

    fn from_str(s: &str) -> (r: Result<Language, String>)
        ensures
            match r {
                Ok(k) => Language::from_text(s@) == Some(k),
                Err(m) => Language::from_text(s@).is_none() && m@ == Language::error_text(s@),
            },
    {
        Language::parse(s)
    }
}

/// A Cargo workspace member crate.
#[derive(Debug, Clone)]
pub struct Crate {
    pub id: Option<i64>,
    pub name: String,
    pub path: String,
    pub description: Option<String>,
    pub bounded_context: Option<String>,
}

/// A module (source file) within a crate.
#[derive(Debug, Clone)]
pub struct Module {
    pub id: Option<i64>,
    pub crate_id: i64,
    pub path: String,
    pub name: String,
    pub language: Language,
}

/// A symbol (function, struct, enum, trait, type alias, ...) within a module.
#[derive(Debug, Clone)]
pub struct Symbol {
    pub id: Option<i64>,
    pub module_id: i64,
    pub name: String,
    pub kind: SymbolKind,
    pub visibility: Visibility,
    pub signature: Option<String>,
    pub line_number: Option<u32>,
    pub scope: Option<String>,
    pub status: SymbolStatus,
    pub created_by: Option<String>,
    pub created_at: Option<String>,
    pub updated_at: Option<String>,
}

/// A relationship between two symbols (calls, implements, depends on).
#[derive(Debug, Clone)]
pub struct Relationship {
    pub id: Option<i64>,
    pub from_symbol_id: i64,
    pub to_symbol_id: i64,
    pub kind: RelationshipKind,
}

/// A contract or invariant attached to a symbol.
#[derive(Debug, Clone)]
pub struct Contract {
    pub id: Option<i64>,
    pub symbol_id: i64,
    pub kind: ContractKind,
    pub description: String,
}

/// An ownership rule for a crate boundary, optionally with glob patterns or a
/// pattern of the regular-expression subset.
#[derive(Debug, Clone)]
pub struct OwnershipRule {
    pub id: Option<i64>,
    pub crate_name: String,
    pub description: String,
    pub kind: OwnershipRuleKind,
    pub pattern: Option<String>,
    pub regex: Option<String>,
}

/// Another registry whose public symbols are imported.
#[derive(Debug, Clone)]
pub struct LinkedRegistry {
    pub id: Option<i64>,
    pub name: String,
    pub path: String,
    pub linked_at: String,
}

/// A public symbol imported from a linked registry.
#[derive(Debug, Clone)]
pub struct LinkedSymbol {
    pub id: Option<i64>,
    pub source_name: String,
    pub name: String,
    pub kind: Option<String>,
    pub crate_name: Option<String>,
    pub mod_path: Option<String>,
    pub signature: Option<String>,
    pub linked_at: String,
}

} // verus!

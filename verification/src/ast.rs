//! The abstract syntax tree and its derived language-type classification.

use vstd::prelude::*;

verus! {

/// SQL language classes.
#[derive(Debug, Clone, Copy, PartialEq, Eq, Structural)]
pub enum LanguageType {
    /// Data Definition Language: defines and manages database objects.
    DDL,
    /// Data Manipulation Language: manages data within database objects.
    DML,
    /// Data Control Language: controls access to data.
    DCL,
    /// Transaction Control Language: manages transactions.
    TCL,
    /// Data Query Language: queries data from the database.
    DQL,
    /// Vendor-specific language.
    Vendor,
}

/// The syntactic structure of a SQL statement.
#[derive(Debug)]
pub enum Statement {
    /// Create a new database.
    CreateDatabase {
        /// Database name.
        name: String,
    },
}

/// Mathematical image of a statement: carried text is a character sequence.
pub enum StatementView {
    CreateDatabase { name: Seq<char> },
}

impl View for Statement {
    type V = StatementView;

    open spec fn view(&self) -> StatementView {
        match self {
            Statement::CreateDatabase { name } => StatementView::CreateDatabase { name: name@ },
        }
    }
}

/// The view of an optional statement.
pub open spec fn statement_view(s: Option<Statement>) -> Option<StatementView> {
    match s {
        Some(st) => Some(st@),
        None => None,
    }
}

impl PartialEq for Statement {
    fn eq(&self, other: &Statement) -> bool {
        match (self, other) {
            (
                Statement::CreateDatabase { name: a },
                Statement::CreateDatabase { name: b },
            ) => a.eq(b),
        }
    }
}

impl vstd::std_specs::cmp::PartialEqSpecImpl for Statement {
    open spec fn obeys_eq_spec() -> bool {
        true
    }

    open spec fn eq_spec(&self, other: &Statement) -> bool {
        match (self, other) {
            (
                Statement::CreateDatabase { name: a },
                Statement::CreateDatabase { name: b },
            ) => a@ == b@,
        }
    }
}

/// The language class a statement belongs to, derived from its variant.
pub open spec fn language_type_of(s: StatementView) -> LanguageType {
    match s {
        StatementView::CreateDatabase { .. } => LanguageType::DDL,
    }
}

impl Statement {
    /// The SQL language class of this statement.
    pub fn language_type(&self) -> (t: LanguageType)
        ensures
            t == language_type_of(self@),
    {
        match self {
            Statement::CreateDatabase { .. } => LanguageType::DDL,
        }
    }
}

} // verus!

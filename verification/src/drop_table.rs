//! Dropping a table or a view: what is dropped, under which name the
//! operation is recorded, which statement does it, and what becomes of the
//! configuration.

use vstd::prelude::*;
use vstd::string::*;
use crate::config::{Configuration, unreferencing};
use crate::error::AdminError;
use crate::guard::ConfigVersionGuard;
use crate::metadata::{TableMetadataCache, named};
use crate::request::DropTableRequest;

verus! {

/// What a name stands for in the schema.
#[derive(Clone, Copy, Debug, PartialEq, Eq, Structural)]
pub enum EntityKind {
    Table,
    View,
}

impl EntityKind {
    /// The word for the kind in a statement.
    pub open spec fn keyword(self) -> Seq<char> {
        match self {
            EntityKind::Table => "TABLE"@,
            EntityKind::View => "VIEW"@,
        }
    }

    /// The word for the kind in the name of an operation.
    pub open spec fn word(self) -> Seq<char> {
        match self {
            EntityKind::Table => "table"@,
            EntityKind::View => "view"@,
        }
    }
}

/// What `name` stands for in the schema that `cache` describes: a table
/// where there is one of that name, else a view where there is one.
pub open spec fn kind_of(cache: TableMetadataCache, name: Seq<char>) -> Option<EntityKind> {
    if named(cache.tables(), name) {
        Some(EntityKind::Table)
    } else if named(cache.views(), name) {
        Some(EntityKind::View)
    } else {
        None
    }
}

/// What is said of a name that stands for nothing.
pub open spec fn not_found_text(name: Seq<char>) -> Seq<char> {
    "Table or view '"@ + name + "' not found"@
}

/// The name under which dropping `name` is recorded.
pub open spec fn operation_name_text(kind: EntityKind, name: Seq<char>) -> Seq<char> {
    "drop_"@ + kind.word() + "_"@ + name
}

/// The statement that drops `name`.
pub open spec fn statement_text(kind: EntityKind, name: Seq<char>) -> Seq<char> {
    "DROP "@ + kind.keyword() + " IF EXISTS "@ + name
}

/// Finds out once what `name` stands for.
pub fn resolve(cache: &TableMetadataCache, name: &str) -> (r: Result<EntityKind, AdminError>)
    ensures
        match kind_of(*cache, name@) {
            Some(kind) => r matches Ok(k) && k == kind,
            None => r matches Err(AdminError::Precondition(text)) && text@ == not_found_text(
                name@,
            ),
        },
{
    if cache.get(name).is_some() {
        Ok(EntityKind::Table)
    } else if cache.get_view(name).is_some() {
        Ok(EntityKind::View)
    } else {
        let mut text = String::from_str("Table or view '");
        text.append(name);
        text.append("' not found");
        Err(AdminError::Precondition(text))
    }
}

/// How a table or view is dropped.
#[derive(Clone, Debug)]
pub struct DropPlan {
    pub kind: EntityKind,
    pub operation_name: String,
    pub statement: String,
}

/// The name under which dropping `name` is recorded.
pub fn operation_name(kind: EntityKind, name: &str) -> (r: String)
    ensures
        r@ == operation_name_text(kind, name@),
{
    let mut text = String::from_str("drop_");
    match kind {
        EntityKind::Table => text.append("table"),
        EntityKind::View => text.append("view"),
    }
    text.append("_");
    text.append(name);
    text
}

/// The statement that drops `name`.
pub fn statement(kind: EntityKind, name: &str) -> (r: String)
    ensures
        r@ == statement_text(kind, name@),
{
    let mut text = String::from_str("DROP ");
    match kind {
        EntityKind::Table => text.append("TABLE"),
        EntityKind::View => text.append("VIEW"),
    }
    text.append(" IF EXISTS ");
    text.append(name);
    text
}

/// Plans the drop that `request` asks for: refused where the name stands
/// for nothing, else the kind of what it stands for, with the name of the
/// operation and the statement for that kind.
pub fn plan(cache: &TableMetadataCache, request: &DropTableRequest) -> (r: Result<
    DropPlan,
    AdminError,
>)
    ensures
        match kind_of(*cache, request.name@) {
            Some(kind) => {
                &&& r matches Ok(p)
                &&& p.kind == kind
                &&& p.operation_name@ == operation_name_text(kind, request.name@)
                &&& p.statement@ == statement_text(kind, request.name@)
            },
            None => r matches Err(AdminError::Precondition(text)) && text@ == not_found_text(
                request.name@,
            ),
        },
{
    let name = request.name.as_str();
    match resolve(cache, name) {
        Ok(kind) => Ok(
            DropPlan {
                kind,
                operation_name: operation_name(kind, name),
                statement: statement(kind, name),
            },
        ),
        Err(e) => Err(e),
    }
}

/// The configuration to put in the place of the live one when `name` is
/// dropped, and the hash to present with it: a copy of the live
/// configuration without the record APIs that expose `name`, and the hash
/// of the live configuration.
pub fn configuration_without(guard: &ConfigVersionGuard, name: &str) -> (r: (Configuration, u64))
    ensures
        r.0.server == guard.config().server,
        r.0.email == guard.config().email,
        r.0.record_apis@ == unreferencing(guard.config().record_apis@, name@),
        r.1 == guard.hash(),
{
    let (mut config, hash) = guard.read();
    config.strip_references(name);
    (config, hash)
}

} // verus!

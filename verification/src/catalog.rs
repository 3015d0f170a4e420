//! What the catalog says of a database: schemas, tables, functions, columns
//! and key constraints, and how a column's key flags follow from the
//! constraints.

use crate::model::views;
use crate::text::same_text;
use vstd::prelude::*;

verus! {

/// A schema of the database.
#[derive(Debug, PartialEq, Eq)]
pub struct SchemaInfo {
    pub name: String,
}

/// The mathematical value of a [`SchemaInfo`].
pub struct SchemaInfoView {
    pub name: Seq<char>,
}

impl View for SchemaInfo {
    type V = SchemaInfoView;

    open spec fn view(&self) -> SchemaInfoView {
        SchemaInfoView { name: self.name@ }
    }
}

/// A table of a schema. `type_` is the catalog's word for the kind of
/// relation: `table`, `view`, `materialized view`, or the engine's own code.
#[derive(Debug, PartialEq, Eq)]
pub struct TableInfo {
    pub schema: String,
    pub name: String,
    pub type_: String,
}

/// The mathematical value of a [`TableInfo`].
pub struct TableInfoView {
    pub schema: Seq<char>,
    pub name: Seq<char>,
    pub type_: Seq<char>,
}

impl View for TableInfo {
    type V = TableInfoView;

    open spec fn view(&self) -> TableInfoView {
        TableInfoView { schema: self.schema@, name: self.name@, type_: self.type_@ }
    }
}

/// A function of a schema, with its declared result type and argument list
/// as the catalog renders them. A routine that returns nothing, a procedure,
/// has no result type.
#[derive(Debug, PartialEq, Eq)]
pub struct FunctionInfo {
    pub schema: String,
    pub name: String,
    pub return_type: Option<String>,
    pub arguments: String,
}

/// The mathematical value of a [`FunctionInfo`].
pub struct FunctionInfoView {
    pub schema: Seq<char>,
    pub name: Seq<char>,
    pub return_type: Option<Seq<char>>,
    pub arguments: Seq<char>,
}

impl View for FunctionInfo {
    type V = FunctionInfoView;

    open spec fn view(&self) -> FunctionInfoView {
        FunctionInfoView {
            schema: self.schema@,
            name: self.name@,
            return_type: optional_text(self.return_type),
            arguments: self.arguments@,
        }
    }
}

/// The characters of an optional string.
pub open spec fn optional_text(text: Option<String>) -> Option<Seq<char>> {
    match text {
        Some(text) => Some(text@),
        None => None,
    }
}

/// A column as the catalog lists it: the schema and table it belongs to, its
/// name and type, whether it is declared `NOT NULL`, its ordinal position in
/// the table, and its comment.
#[derive(Debug, PartialEq, Eq)]
pub struct ColumnRecord {
    pub schema: String,
    pub table: String,
    pub name: String,
    pub data_type: String,
    pub not_null: bool,
    pub position: i16,
    pub description: Option<String>,
}

/// The mathematical value of a [`ColumnRecord`].
pub struct ColumnRecordView {
    pub schema: Seq<char>,
    pub table: Seq<char>,
    pub name: Seq<char>,
    pub data_type: Seq<char>,
    pub not_null: bool,
    pub position: i16,
    pub description: Option<Seq<char>>,
}

impl View for ColumnRecord {
    type V = ColumnRecordView;

    open spec fn view(&self) -> ColumnRecordView {
        ColumnRecordView {
            schema: self.schema@,
            table: self.table@,
            name: self.name@,
            data_type: self.data_type@,
            not_null: self.not_null,
            position: self.position,
            description: optional_text(self.description),
        }
    }
}

/// The kinds of constraint that the key flags depend on.
#[derive(Debug, Clone, Copy, PartialEq, Eq, Structural)]
pub enum ConstraintKind {
    PrimaryKey,
    ForeignKey,
    Other,
}

/// The catalog's code for a primary-key constraint, the letter `p`.
pub const PRIMARY_KEY_CODE: u8 = 112;

/// The catalog's code for a foreign-key constraint, the letter `f`.
pub const FOREIGN_KEY_CODE: u8 = 102;

/// The kind that a constraint code stands for.
pub open spec fn kind_of_code(code: u8) -> ConstraintKind {
    if code == PRIMARY_KEY_CODE {
        ConstraintKind::PrimaryKey
    } else if code == FOREIGN_KEY_CODE {
        ConstraintKind::ForeignKey
    } else {
        ConstraintKind::Other
    }
}

impl ConstraintKind {
    /// The kind of the constraint that the catalog files under `code`.
    pub fn from_code(code: u8) -> (kind: ConstraintKind)
        ensures
            kind == kind_of_code(code),
    {
        if code == PRIMARY_KEY_CODE {
            ConstraintKind::PrimaryKey
        } else if code == FOREIGN_KEY_CODE {
            ConstraintKind::ForeignKey
        } else {
            ConstraintKind::Other
        }
    }
}

/// A constraint of a table: its kind and its key list, the ordinal positions
/// of the constrained columns in the order of the constraint.
#[derive(Debug, PartialEq, Eq)]
pub struct KeyConstraint {
    pub kind: ConstraintKind,
    pub columns: Vec<i16>,
}

/// The mathematical value of a [`KeyConstraint`].
pub struct KeyConstraintView {
    pub kind: ConstraintKind,
    pub columns: Seq<i16>,
}

impl View for KeyConstraint {
    type V = KeyConstraintView;

    open spec fn view(&self) -> KeyConstraintView {
        KeyConstraintView { kind: self.kind, columns: self.columns@ }
    }
}

/// A column of a table, as shown to the client.
#[derive(Debug, PartialEq, Eq)]
pub struct ColumnInfo {
    pub name: String,
    pub data_type: String,
    pub is_nullable: bool,
    pub is_primary_key: bool,
    pub is_foreign_key: bool,
    pub description: Option<String>,
}

/// The mathematical value of a [`ColumnInfo`].
pub struct ColumnInfoView {
    pub name: Seq<char>,
    pub data_type: Seq<char>,
    pub is_nullable: bool,
    pub is_primary_key: bool,
    pub is_foreign_key: bool,
    pub description: Option<Seq<char>>,
}

impl View for ColumnInfo {
    type V = ColumnInfoView;

    open spec fn view(&self) -> ColumnInfoView {
        ColumnInfoView {
            name: self.name@,
            data_type: self.data_type@,
            is_nullable: self.is_nullable,
            is_primary_key: self.is_primary_key,
            is_foreign_key: self.is_foreign_key,
            description: optional_text(self.description),
        }
    }
}

/// The constraint is a primary key whose first key column is `position`.
pub open spec fn leads_primary_key(constraint: KeyConstraintView, position: i16) -> bool {
    constraint.kind == ConstraintKind::PrimaryKey && constraint.columns.len() > 0
        && constraint.columns[0] == position
}

/// The constraint is a foreign key with `position` somewhere in its key list.
pub open spec fn in_foreign_key(constraint: KeyConstraintView, position: i16) -> bool {
    constraint.kind == ConstraintKind::ForeignKey && constraint.columns.contains(position)
}

/// The column at `position` is the leading column of a primary key. The
/// other columns of a composite primary key are not marked.
pub open spec fn is_primary_key(constraints: Seq<KeyConstraintView>, position: i16) -> bool {
    exists|k: int|
        0 <= k < constraints.len() && leads_primary_key(#[trigger] constraints[k], position)
}

/// The column at `position` takes part in a foreign key, in whatever place
/// of its key list.
pub open spec fn is_foreign_key(constraints: Seq<KeyConstraintView>, position: i16) -> bool {
    exists|k: int| 0 <= k < constraints.len() && in_foreign_key(#[trigger] constraints[k], position)
}

/// What the client is shown of a column, given the constraints of its table.
pub open spec fn column_info_of(
    record: ColumnRecordView,
    constraints: Seq<KeyConstraintView>,
) -> ColumnInfoView {
    ColumnInfoView {
        name: record.name,
        data_type: record.data_type,
        is_nullable: !record.not_null,
        is_primary_key: is_primary_key(constraints, record.position),
        is_foreign_key: is_foreign_key(constraints, record.position),
        description: record.description,
    }
}

/// The columns shown for a table: one per record, in the catalog's order.
pub open spec fn column_infos_of(
    records: Seq<ColumnRecordView>,
    constraints: Seq<KeyConstraintView>,
) -> Seq<ColumnInfoView> {
    Seq::new(records.len(), |i: int| column_info_of(records[i], constraints))
}

/// The records are the columns of the table `table` in `schema`: there is at
/// least one, and each carries these two names.
pub open spec fn names_table(
    records: Seq<ColumnRecordView>,
    schema: Seq<char>,
    table: Seq<char>,
) -> bool {
    records.len() > 0 && forall|i: int|
        0 <= i < records.len() ==> (#[trigger] records[i]).schema == schema && records[i].table
            == table
}

fn contains_position(columns: &Vec<i16>, position: i16) -> (found: bool)
    ensures
        found == columns@.contains(position),
{
    let mut i: usize = 0;
    while i < columns.len()
        invariant
            i <= columns@.len(),
            forall|j: int| 0 <= j < i ==> columns@[j] != position,
        decreases columns@.len() - i,
    {
        if columns[i] == position {
            return true;
        }
        i += 1;
    }
    false
}

/// Whether the column at `position` is marked as primary key.
pub fn primary_key_flag(constraints: &Vec<KeyConstraint>, position: i16) -> (flag: bool)
    ensures
        flag == is_primary_key(views(constraints@), position),
{
    let mut k: usize = 0;
    while k < constraints.len()
        invariant
            k <= constraints@.len(),
            forall|j: int|
                0 <= j < k ==> !leads_primary_key(#[trigger] views(constraints@)[j], position),
        decreases constraints@.len() - k,
    {
        let constraint = &constraints[k];
        let leads = match constraint.kind {
            ConstraintKind::PrimaryKey => constraint.columns.len() > 0 && constraint.columns[0]
                == position,
            _ => false,
        };
        if leads {
            assert(leads_primary_key(views(constraints@)[k as int], position));
            return true;
        }
        k += 1;
    }
    false
}

/// Whether the column at `position` is marked as foreign key.
pub fn foreign_key_flag(constraints: &Vec<KeyConstraint>, position: i16) -> (flag: bool)
    ensures
        flag == is_foreign_key(views(constraints@), position),
{
    let mut k: usize = 0;
    while k < constraints.len()
        invariant
            k <= constraints@.len(),
            forall|j: int|
                0 <= j < k ==> !in_foreign_key(#[trigger] views(constraints@)[j], position),
        decreases constraints@.len() - k,
    {
        let constraint = &constraints[k];
        let member = match constraint.kind {
            ConstraintKind::ForeignKey => contains_position(&constraint.columns, position),
            _ => false,
        };
        if member {
            assert(in_foreign_key(views(constraints@)[k as int], position));
            return true;
        }
        k += 1;
    }
    false
}

fn copy_optional_text(text: &Option<String>) -> (copy: Option<String>)
    ensures
        optional_text(copy) == optional_text(*text),
{
    match text {
        Some(text) => Some(text.clone()),
        None => None,
    }
}

/// What the client is shown of the column `record`.
pub fn describe_column(record: &ColumnRecord, constraints: &Vec<KeyConstraint>) -> (info:
    ColumnInfo)
    ensures
        info@ == column_info_of(record@, views(constraints@)),
{
    ColumnInfo {
        name: record.name.clone(),
        data_type: record.data_type.clone(),
        is_nullable: !record.not_null,
        is_primary_key: primary_key_flag(constraints, record.position),
        is_foreign_key: foreign_key_flag(constraints, record.position),
        description: copy_optional_text(&record.description),
    }
}

/// What the client is shown of the columns `records`, in their order.
pub fn describe_columns(records: &Vec<ColumnRecord>, constraints: &Vec<KeyConstraint>) -> (infos:
    Vec<ColumnInfo>)
    ensures
        views(infos@) == column_infos_of(views(records@), views(constraints@)),
{
    let mut infos: Vec<ColumnInfo> = Vec::new();
    let mut i: usize = 0;
    while i < records.len()
        invariant
            i <= records@.len(),
            infos@.len() == i,
            forall|j: int|
                0 <= j < i ==> (#[trigger] infos@[j])@ == column_info_of(
                    records@[j]@,
                    views(constraints@),
                ),
        decreases records@.len() - i,
    {
        infos.push(describe_column(&records[i], constraints));
        i += 1;
    }
    assert(views(infos@) =~= column_infos_of(views(records@), views(constraints@)));
    infos
}

/// Whether the catalog's answer describes the table that was asked for.
pub fn describes_table(records: &Vec<ColumnRecord>, schema: &str, table: &str) -> (valid: bool)
    ensures
        valid == names_table(views(records@), schema@, table@),
{
    if records.len() == 0 {
        return false;
    }
    let mut i: usize = 0;
    while i < records.len()
        invariant
            i <= records@.len(),
            forall|j: int|
                0 <= j < i ==> (#[trigger] views(records@)[j]).schema == schema@ && views(
                    records@,
                )[j].table == table@,
        decreases records@.len() - i,
    {
        if !same_text(records[i].schema.as_str(), schema) || !same_text(
            records[i].table.as_str(),
            table,
        ) {
            assert(views(records@)[i as int].schema != schema@ || views(records@)[i as int].table
                != table@);
            return false;
        }
        i += 1;
    }
    true
}

/// The only column of a single-column primary key is marked as primary key.
pub proof fn lemma_sole_primary_key_column(
    record: ColumnRecordView,
    constraints: Seq<KeyConstraintView>,
    k: int,
)
    requires
        0 <= k < constraints.len(),
        constraints[k].kind == ConstraintKind::PrimaryKey,
        constraints[k].columns == seq![record.position],
    ensures
        column_info_of(record, constraints).is_primary_key,
{
    assert(leads_primary_key(constraints[k], record.position));
}

/// The second column of a two-column primary key is not marked as primary
/// key, the table having no other primary key.
pub proof fn lemma_second_primary_key_column(
    record: ColumnRecordView,
    constraints: Seq<KeyConstraintView>,
    k: int,
    first: i16,
)
    requires
        0 <= k < constraints.len(),
        constraints[k].kind == ConstraintKind::PrimaryKey,
        constraints[k].columns == seq![first, record.position],
        first != record.position,
        forall|j: int|
            0 <= j < constraints.len() && j != k ==> (#[trigger] constraints[j]).kind
                != ConstraintKind::PrimaryKey,
    ensures
        !column_info_of(record, constraints).is_primary_key,
{
    assert forall|j: int| 0 <= j < constraints.len() implies !leads_primary_key(
        #[trigger] constraints[j],
        record.position,
    ) by {
        if j == k {
            assert(constraints[k].columns[0] == first);
        }
    }
}

/// A column in any place of a foreign key's key list is marked as foreign
/// key.
pub proof fn lemma_foreign_key_member(
    record: ColumnRecordView,
    constraints: Seq<KeyConstraintView>,
    k: int,
    place: int,
)
    requires
        0 <= k < constraints.len(),
        constraints[k].kind == ConstraintKind::ForeignKey,
        0 <= place < constraints[k].columns.len(),
        constraints[k].columns[place] == record.position,
    ensures
        column_info_of(record, constraints).is_foreign_key,
{
    assert(in_foreign_key(constraints[k], record.position));
}

} // verus!

//! The data page service: the decisions taken while a page of a table is
//! fetched.
//!
//! [`get_table_data`] resolves the connection and starts a [`PageWalk`]. The
//! caller performs what the walk requests and hands the answer to
//! [`PageWalk::step`]. The walk asks for the columns of the table and checks
//! that the catalog knows the table, asks for the key constraints, for the
//! number of rows, and for the rows of the page.

use crate::catalog::{
    column_infos_of, describe_columns, describes_table, names_table, ColumnInfo, ColumnInfoView,
    ColumnRecord, ColumnRecordView, KeyConstraint, KeyConstraintView,
};
use crate::convert::{CellValueView, RawCell, RawCellView};
use crate::json::{object_entries, row_entries, row_object, RowObject};
use crate::model::views;
use crate::queries::{
    count_statement, count_statement_of, plain_query, rows_statement_of, table_query,
    window_query, ParameterView, Query, QueryView, GET_COLUMNS, GET_KEY_CONSTRAINTS,
};
use crate::registry::ClientState;
use std::sync::Arc;
use vstd::prelude::*;
use vstd::string::*;

verus! {

/// What each of the row objects holds.
pub open spec fn objects_entries(rows: Seq<RowObject>) -> Seq<Map<Seq<char>, CellValueView>> {
    Seq::new(rows.len(), |i: int| object_entries(rows[i]))
}

/// The values of the cells of each row.
pub open spec fn rows_views(rows: Seq<Vec<RawCell>>) -> Seq<Seq<RawCellView>> {
    Seq::new(rows.len(), |i: int| views(rows[i]@))
}

/// The entries of the row object of each row.
pub open spec fn rows_entries(rows: Seq<Seq<RawCellView>>) -> Seq<Map<Seq<char>, CellValueView>> {
    Seq::new(rows.len(), |i: int| row_entries(rows[i]))
}

/// One page of a table: its columns, the rows of the page as objects keyed
/// by column name, and the number of rows in the whole table.
#[derive(Debug, PartialEq)]
pub struct TableData {
    pub columns: Vec<ColumnInfo>,
    pub rows: Vec<RowObject>,
    pub total_rows: i64,
}

/// The mathematical value of a [`TableData`].
pub struct TableDataView {
    pub columns: Seq<ColumnInfoView>,
    pub rows: Seq<Map<Seq<char>, CellValueView>>,
    pub total_rows: i64,
}

impl View for TableData {
    type V = TableDataView;

    open spec fn view(&self) -> TableDataView {
        TableDataView {
            columns: views(self.columns@),
            rows: objects_entries(self.rows@),
            total_rows: self.total_rows,
        }
    }
}

/// Why a page could not be fetched.
#[derive(Debug, PartialEq, Eq)]
pub enum PageError {
    /// No connection is registered under the identifier.
    NotFound,
    /// The catalog of the connection knows no such table.
    UnknownTable { schema: String, table: String },
    /// The columns or the key constraints could not be listed; the driver's
    /// message.
    Columns(String),
    /// The rows could not be counted; the driver's message.
    RowCount(String),
    /// The rows could not be read; the driver's message.
    Rows(String),
}

/// The mathematical value of a [`PageError`].
pub enum PageErrorView {
    NotFound,
    UnknownTable { schema: Seq<char>, table: Seq<char> },
    Columns(Seq<char>),
    RowCount(Seq<char>),
    Rows(Seq<char>),
}

impl View for PageError {
    type V = PageErrorView;

    open spec fn view(&self) -> PageErrorView {
        match self {
            PageError::NotFound => PageErrorView::NotFound,
            PageError::UnknownTable { schema, table } => PageErrorView::UnknownTable {
                schema: schema@,
                table: table@,
            },
            PageError::Columns(message) => PageErrorView::Columns(message@),
            PageError::RowCount(message) => PageErrorView::RowCount(message@),
            PageError::Rows(message) => PageErrorView::Rows(message@),
        }
    }
}

/// The text of a page error. A driver's message follows a few words that
/// name the step, verbatim.
pub open spec fn page_error_text(error: PageErrorView) -> Seq<char> {
    match error {
        PageErrorView::NotFound => "Database connection not found"@,
        PageErrorView::UnknownTable { schema, table } => "Table not found: "@ + schema + "."@
            + table,
        PageErrorView::Columns(message) => "Failed to get columns: "@ + message,
        PageErrorView::RowCount(message) => "Failed to get row count: "@ + message,
        PageErrorView::Rows(message) => "Failed to get rows: "@ + message,
    }
}

impl PageError {
    /// The text of the error, for the caller.
    pub fn message(&self) -> (text: String)
        ensures
            text@ == page_error_text(self@),
    {
        match self {
            PageError::NotFound => String::from_str("Database connection not found"),
            PageError::UnknownTable { schema, table } => {
                let mut text = String::from_str("Table not found: ");
                text.append(schema.as_str());
                text.append(".");
                text.append(table.as_str());
                text
            },
            PageError::Columns(message) => String::from_str("Failed to get columns: ").concat(
                message.as_str(),
            ),
            PageError::RowCount(message) => String::from_str("Failed to get row count: ").concat(
                message.as_str(),
            ),
            PageError::Rows(message) => String::from_str("Failed to get rows: ").concat(
                message.as_str(),
            ),
        }
    }
}

/// What the caller is to ask of the database next.
#[derive(Debug, PartialEq, Eq)]
pub enum PageRequest {
    /// The columns of the table.
    Columns { schema: String, table: String },
    /// The key constraints of the table.
    KeyConstraints { schema: String, table: String },
    /// The number of rows of the table.
    RowCount { schema: String, table: String },
    /// At most `limit` rows of the table after the first `offset`.
    Rows { schema: String, table: String, limit: i64, offset: i64 },
}

/// The mathematical value of a [`PageRequest`].
pub enum PageRequestView {
    Columns { schema: Seq<char>, table: Seq<char> },
    KeyConstraints { schema: Seq<char>, table: Seq<char> },
    RowCount { schema: Seq<char>, table: Seq<char> },
    Rows { schema: Seq<char>, table: Seq<char>, limit: i64, offset: i64 },
}

impl View for PageRequest {
    type V = PageRequestView;

    open spec fn view(&self) -> PageRequestView {
        match self {
            PageRequest::Columns { schema, table } => PageRequestView::Columns {
                schema: schema@,
                table: table@,
            },
            PageRequest::KeyConstraints { schema, table } => PageRequestView::KeyConstraints {
                schema: schema@,
                table: table@,
            },
            PageRequest::RowCount { schema, table } => PageRequestView::RowCount {
                schema: schema@,
                table: table@,
            },
            PageRequest::Rows { schema, table, limit, offset } => PageRequestView::Rows {
                schema: schema@,
                table: table@,
                limit: *limit,
                offset: *offset,
            },
        }
    }
}

/// The query that a request stands for. The names of the schema and the
/// table are bound as parameters of the catalog statements and written into
/// the statements on the table itself; the limit and the offset are always
/// bound.
pub open spec fn page_query_of(request: PageRequestView) -> QueryView {
    match request {
        PageRequestView::Columns { schema, table } => QueryView {
            statement: GET_COLUMNS@,
            parameters: seq![ParameterView::Text(schema), ParameterView::Text(table)],
        },
        PageRequestView::KeyConstraints { schema, table } => QueryView {
            statement: GET_KEY_CONSTRAINTS@,
            parameters: seq![ParameterView::Text(schema), ParameterView::Text(table)],
        },
        PageRequestView::RowCount { schema, table } => QueryView {
            statement: count_statement_of(schema, table),
            parameters: Seq::empty(),
        },
        PageRequestView::Rows { schema, table, limit, offset } => QueryView {
            statement: rows_statement_of(schema, table),
            parameters: seq![ParameterView::BigInt(limit), ParameterView::BigInt(offset)],
        },
    }
}

impl PageRequest {
    /// The statement to send for this request, with its parameters.
    pub fn query(&self) -> (query: Query)
        ensures
            query@ == page_query_of(self@),
    {
        match self {
            PageRequest::Columns { schema, table } => table_query(
                GET_COLUMNS,
                schema.as_str(),
                table.as_str(),
            ),
            PageRequest::KeyConstraints { schema, table } => table_query(
                GET_KEY_CONSTRAINTS,
                schema.as_str(),
                table.as_str(),
            ),
            PageRequest::RowCount { schema, table } => {
                let statement = count_statement(schema.as_str(), table.as_str());
                plain_query(statement.as_str())
            },
            PageRequest::Rows { schema, table, limit, offset } => window_query(
                schema.as_str(),
                table.as_str(),
                *limit,
                *offset,
            ),
        }
    }
}

/// What came back from the last request.
#[derive(Debug, PartialEq, Eq)]
pub enum PageEvent {
    /// The request failed, with the driver's message.
    Failed(String),
    /// The columns that the catalog lists for the table.
    Columns(Vec<ColumnRecord>),
    /// The key constraints of the table.
    KeyConstraints(Vec<KeyConstraint>),
    /// The number of rows of the table.
    RowCount(i64),
    /// The rows of the page, each a list of cells.
    Rows(Vec<Vec<RawCell>>),
}

/// The mathematical value of a [`PageEvent`].
pub enum PageEventView {
    Failed(Seq<char>),
    Columns(Seq<ColumnRecordView>),
    KeyConstraints(Seq<KeyConstraintView>),
    RowCount(i64),
    Rows(Seq<Seq<RawCellView>>),
}

impl View for PageEvent {
    type V = PageEventView;

    open spec fn view(&self) -> PageEventView {
        match self {
            PageEvent::Failed(message) => PageEventView::Failed(message@),
            PageEvent::Columns(records) => PageEventView::Columns(views(records@)),
            PageEvent::KeyConstraints(constraints) => PageEventView::KeyConstraints(
                views(constraints@),
            ),
            PageEvent::RowCount(total_rows) => PageEventView::RowCount(*total_rows),
            PageEvent::Rows(rows) => PageEventView::Rows(rows_views(rows@)),
        }
    }
}

/// Where the fetching of a page stands.
pub enum PageStageView {
    /// The columns are being listed.
    Columns,
    /// The key constraints are being listed; the catalog's columns are known
    /// and describe the table.
    KeyConstraints { records: Seq<ColumnRecordView> },
    /// The rows are being counted; the columns are known.
    RowCount { columns: Seq<ColumnInfoView> },
    /// The rows of the page are being read; the columns and the number of
    /// rows are known.
    Rows { columns: Seq<ColumnInfoView>, total_rows: i64 },
}

/// The mathematical value of a [`PageWalk`].
pub struct PageWalkView {
    pub schema: Seq<char>,
    pub table: Seq<char>,
    pub limit: i64,
    pub offset: i64,
    pub stage: PageStageView,
}

/// The fetching of a page that goes on, or its end.
pub enum PageProgressView {
    Pending(PageWalkView),
    Done(Result<TableDataView, PageErrorView>),
}

/// Past the check against the catalog the table has a column.
pub open spec fn page_inv(state: PageWalkView) -> bool {
    match state.stage {
        PageStageView::Columns => true,
        PageStageView::KeyConstraints { records } => records.len() > 0,
        PageStageView::RowCount { columns } => columns.len() > 0,
        PageStageView::Rows { columns, .. } => columns.len() > 0,
    }
}

/// The state in which the fetching of a page starts.
pub open spec fn page_start(
    schema: Seq<char>,
    table: Seq<char>,
    limit: i64,
    offset: i64,
) -> PageWalkView {
    PageWalkView { schema, table, limit, offset, stage: PageStageView::Columns }
}

/// What the fetching of a page in `state` asks of the caller.
pub open spec fn page_request_of(state: PageWalkView) -> PageRequestView {
    match state.stage {
        PageStageView::Columns => PageRequestView::Columns {
            schema: state.schema,
            table: state.table,
        },
        PageStageView::KeyConstraints { .. } => PageRequestView::KeyConstraints {
            schema: state.schema,
            table: state.table,
        },
        PageStageView::RowCount { .. } => PageRequestView::RowCount {
            schema: state.schema,
            table: state.table,
        },
        PageStageView::Rows { .. } => PageRequestView::Rows {
            schema: state.schema,
            table: state.table,
            limit: state.limit,
            offset: state.offset,
        },
    }
}

/// The transition of the fetching of a page. An event that answers the
/// pending request moves the fetching on or ends it; any other event is
/// discarded and the fetching stays where it is.
///
/// The names of the schema and the table go into a statement only after the
/// catalog has listed columns under exactly these names: a table that the
/// catalog does not know is rejected before its name is written anywhere.
pub open spec fn page_step(state: PageWalkView, event: PageEventView) -> PageProgressView {
    match (state.stage, event) {
        (PageStageView::Columns, PageEventView::Columns(records)) => if names_table(
            records,
            state.schema,
            state.table,
        ) {
            PageProgressView::Pending(
                PageWalkView { stage: PageStageView::KeyConstraints { records }, ..state },
            )
        } else {
            PageProgressView::Done(
                Err(PageErrorView::UnknownTable { schema: state.schema, table: state.table }),
            )
        },
        (PageStageView::Columns, PageEventView::Failed(message)) => PageProgressView::Done(
            Err(PageErrorView::Columns(message)),
        ),
        (
            PageStageView::KeyConstraints { records },
            PageEventView::KeyConstraints(constraints),
        ) => PageProgressView::Pending(
            PageWalkView {
                stage: PageStageView::RowCount { columns: column_infos_of(records, constraints) },
                ..state
            },
        ),
        (PageStageView::KeyConstraints { .. }, PageEventView::Failed(message)) => {
            PageProgressView::Done(Err(PageErrorView::Columns(message)))
        },
        (PageStageView::RowCount { columns }, PageEventView::RowCount(total_rows)) => {
            PageProgressView::Pending(
                PageWalkView { stage: PageStageView::Rows { columns, total_rows }, ..state },
            )
        },
        (PageStageView::RowCount { .. }, PageEventView::Failed(message)) => PageProgressView::Done(
            Err(PageErrorView::RowCount(message)),
        ),
        (PageStageView::Rows { columns, total_rows }, PageEventView::Rows(rows)) => {
            PageProgressView::Done(
                Ok(TableDataView { columns, rows: rows_entries(rows), total_rows }),
            )
        },
        (PageStageView::Rows { .. }, PageEventView::Failed(message)) => PageProgressView::Done(
            Err(PageErrorView::Rows(message)),
        ),
        _ => PageProgressView::Pending(state),
    }
}

enum PageStage {
    Columns,
    KeyConstraints { records: Vec<ColumnRecord> },
    RowCount { columns: Vec<ColumnInfo> },
    Rows { columns: Vec<ColumnInfo>, total_rows: i64 },
}

spec fn stage_view(stage: PageStage) -> PageStageView {
    match stage {
        PageStage::Columns => PageStageView::Columns,
        PageStage::KeyConstraints { records } => PageStageView::KeyConstraints {
            records: views(records@),
        },
        PageStage::RowCount { columns } => PageStageView::RowCount { columns: views(columns@) },
        PageStage::Rows { columns, total_rows } => PageStageView::Rows {
            columns: views(columns@),
            total_rows,
        },
    }
}

/// The fetching of a page under way.
pub struct PageWalk {
    schema: String,
    table: String,
    limit: i64,
    offset: i64,
    stage: PageStage,
}

impl View for PageWalk {
    type V = PageWalkView;

    closed spec fn view(&self) -> PageWalkView {
        PageWalkView {
            schema: self.schema@,
            table: self.table@,
            limit: self.limit,
            offset: self.offset,
            stage: stage_view(self.stage),
        }
    }
}

/// The mathematical value of the end of a fetching.
pub open spec fn page_result_view(result: Result<TableData, PageError>) -> Result<
    TableDataView,
    PageErrorView,
> {
    match result {
        Ok(page) => Ok(page@),
        Err(error) => Err(error@),
    }
}

/// The fetching of a page that goes on, or its end.
pub enum PageProgress {
    Pending(PageWalk),
    Done(Result<TableData, PageError>),
}

impl View for PageProgress {
    type V = PageProgressView;

    open spec fn view(&self) -> PageProgressView {
        match self {
            PageProgress::Pending(walk) => PageProgressView::Pending(walk@),
            PageProgress::Done(result) => PageProgressView::Done(page_result_view(*result)),
        }
    }
}

/// The row objects of the rows of a page, in order.
pub fn row_objects(rows: &Vec<Vec<RawCell>>) -> (objects: Vec<RowObject>)
    ensures
        objects_entries(objects@) == rows_entries(rows_views(rows@)),
{
    let mut objects: Vec<RowObject> = Vec::new();
    let mut i: usize = 0;
    while i < rows.len()
        invariant
            i <= rows@.len(),
            objects@.len() == i,
            forall|j: int|
                0 <= j < i ==> object_entries(#[trigger] objects@[j]) == row_entries(
                    views(rows@[j]@),
                ),
        decreases rows@.len() - i,
    {
        objects.push(row_object(&rows[i]));
        i += 1;
    }
    assert(objects_entries(objects@) =~= rows_entries(rows_views(rows@)));
    objects
}

/// Starts the fetching of a page of `table` in `schema` over the connection
/// registered under `connection_id`: at most `limit` rows after the first
/// `offset`. Returns the connection's handle with the walk, or
/// [`PageError::NotFound`] when no connection is registered under the
/// identifier; nothing is asked of any database then.
pub fn get_table_data<C>(
    registry: &ClientState<C>,
    connection_id: &str,
    schema: &str,
    table: &str,
    limit: i64,
    offset: i64,
) -> (found: Result<(Arc<C>, PageWalk), PageError>)
    ensures
        match found {
            Ok((handle, walk)) => registry@.contains_key(connection_id@) && handle
                == registry@[connection_id@] && walk@ == page_start(
                schema@,
                table@,
                limit,
                offset,
            ),
            Err(error) => !registry@.contains_key(connection_id@) && error@
                == PageErrorView::NotFound,
        },
{
    match registry.get_client(connection_id) {
        Some(handle) => Ok(
            (
                handle,
                PageWalk {
                    schema: String::from_str(schema),
                    table: String::from_str(table),
                    limit,
                    offset,
                    stage: PageStage::Columns,
                },
            ),
        ),
        None => Err(PageError::NotFound),
    }
}

impl PageWalk {
    #[verifier::type_invariant]
    spec fn table_has_column(self) -> bool {
        page_inv(self@)
    }

    /// What the caller is to ask of the database next.
    pub fn request(&self) -> (request: PageRequest)
        ensures
            request@ == page_request_of(self@),
    {
        match &self.stage {
            PageStage::Columns => PageRequest::Columns {
                schema: self.schema.clone(),
                table: self.table.clone(),
            },
            PageStage::KeyConstraints { .. } => PageRequest::KeyConstraints {
                schema: self.schema.clone(),
                table: self.table.clone(),
            },
            PageStage::RowCount { .. } => PageRequest::RowCount {
                schema: self.schema.clone(),
                table: self.table.clone(),
            },
            PageStage::Rows { .. } => PageRequest::Rows {
                schema: self.schema.clone(),
                table: self.table.clone(),
                limit: self.limit,
                offset: self.offset,
            },
        }
    }

    /// Takes the answer to the pending request and moves the fetching on.
    pub fn step(self, event: PageEvent) -> (progress: PageProgress)
        ensures
            progress@ == page_step(self@, event@),
    {
        proof {
            use_type_invariant(&self);
        }
        let PageWalk { schema, table, limit, offset, stage } = self;
        match stage {
            PageStage::Columns => match event {
                PageEvent::Columns(records) => {
                    if describes_table(&records, schema.as_str(), table.as_str()) {
                        PageProgress::Pending(
                            PageWalk {
                                schema,
                                table,
                                limit,
                                offset,
                                stage: PageStage::KeyConstraints { records },
                            },
                        )
                    } else {
                        PageProgress::Done(Err(PageError::UnknownTable { schema, table }))
                    }
                },
                PageEvent::Failed(message) => PageProgress::Done(Err(PageError::Columns(message))),
                _ => PageProgress::Pending(
                    PageWalk { schema, table, limit, offset, stage: PageStage::Columns },
                ),
            },
            PageStage::KeyConstraints { records } => match event {
                PageEvent::KeyConstraints(constraints) => {
                    let columns = describe_columns(&records, &constraints);
                    assert(views(columns@).len() == views(records@).len());
                    PageProgress::Pending(
                        PageWalk {
                            schema,
                            table,
                            limit,
                            offset,
                            stage: PageStage::RowCount { columns },
                        },
                    )
                },
                PageEvent::Failed(message) => PageProgress::Done(Err(PageError::Columns(message))),
                _ => PageProgress::Pending(
                    PageWalk {
                        schema,
                        table,
                        limit,
                        offset,
                        stage: PageStage::KeyConstraints { records },
                    },
                ),
            },
            PageStage::RowCount { columns } => match event {
                PageEvent::RowCount(total_rows) => PageProgress::Pending(
                    PageWalk {
                        schema,
                        table,
                        limit,
                        offset,
                        stage: PageStage::Rows { columns, total_rows },
                    },
                ),
                PageEvent::Failed(message) => PageProgress::Done(
                    Err(PageError::RowCount(message)),
                ),
                _ => PageProgress::Pending(
                    PageWalk {
                        schema,
                        table,
                        limit,
                        offset,
                        stage: PageStage::RowCount { columns },
                    },
                ),
            },
            PageStage::Rows { columns, total_rows } => match event {
                PageEvent::Rows(rows) => PageProgress::Done(
                    Ok(TableData { columns, rows: row_objects(&rows), total_rows }),
                ),
                PageEvent::Failed(message) => PageProgress::Done(Err(PageError::Rows(message))),
                _ => PageProgress::Pending(
                    PageWalk {
                        schema,
                        table,
                        limit,
                        offset,
                        stage: PageStage::Rows { columns, total_rows },
                    },
                ),
            },
        }
    }
}

/// Where the fetching of a page stands after the events `events`, taken in
/// order. Events after the end of the fetching are not looked at.
pub open spec fn page_run(state: PageWalkView, events: Seq<PageEventView>) -> PageProgressView
    decreases events.len(),
{
    if events.len() == 0 {
        PageProgressView::Pending(state)
    } else {
        match page_step(state, events[0]) {
            PageProgressView::Pending(next) => page_run(next, events.drop_first()),
            PageProgressView::Done(result) => PageProgressView::Done(result),
        }
    }
}

/// Every step keeps the invariant of the fetching.
pub proof fn lemma_page_step_keeps_invariant(state: PageWalkView, event: PageEventView)
    requires
        page_inv(state),
    ensures
        page_step(state, event) matches PageProgressView::Pending(next) ==> page_inv(next),
{
}

/// A page that is returned has at least one column, and as many row objects
/// as the database returned rows.
pub proof fn lemma_page_has_columns(state: PageWalkView, event: PageEventView)
    requires
        page_inv(state),
    ensures
        match page_step(state, event) {
            PageProgressView::Done(Ok(page)) => page.columns.len() > 0 && match event {
                PageEventView::Rows(rows) => page.rows.len() == rows.len(),
                _ => false,
            },
            _ => true,
        },
{
}

/// A fetching that the database answers throughout, for a table that the
/// catalog knows, returns the page: the columns with their key flags, the
/// objects of the rows in the order in which they came, and the number of
/// rows that was counted.
pub proof fn lemma_page_of_known_table(
    schema: Seq<char>,
    table: Seq<char>,
    limit: i64,
    offset: i64,
    records: Seq<ColumnRecordView>,
    constraints: Seq<KeyConstraintView>,
    total_rows: i64,
    rows: Seq<Seq<RawCellView>>,
)
    requires
        names_table(records, schema, table),
    ensures
        page_run(
            page_start(schema, table, limit, offset),
            seq![
                PageEventView::Columns(records),
                PageEventView::KeyConstraints(constraints),
                PageEventView::RowCount(total_rows),
                PageEventView::Rows(rows),
            ],
        ) == PageProgressView::Done(
            Ok(
                TableDataView {
                    columns: column_infos_of(records, constraints),
                    rows: rows_entries(rows),
                    total_rows,
                },
            ),
        ),
        column_infos_of(records, constraints).len() > 0,
{
    let start = page_start(schema, table, limit, offset);
    let events = seq![
        PageEventView::Columns(records),
        PageEventView::KeyConstraints(constraints),
        PageEventView::RowCount(total_rows),
        PageEventView::Rows(rows),
    ];
    let listed = PageWalkView { stage: PageStageView::KeyConstraints { records }, ..start };
    let columns = column_infos_of(records, constraints);
    let described = PageWalkView { stage: PageStageView::RowCount { columns }, ..start };
    let counted = PageWalkView { stage: PageStageView::Rows { columns, total_rows }, ..start };
    let after_columns = events.drop_first();
    let after_constraints = after_columns.drop_first();
    let after_count = after_constraints.drop_first();
    assert(page_step(start, events[0]) == PageProgressView::Pending(listed));
    assert(page_step(listed, after_columns[0]) == PageProgressView::Pending(described));
    assert(page_step(described, after_constraints[0]) == PageProgressView::Pending(counted));
    assert(page_run(counted, after_count) == page_step(counted, after_count[0]));
    assert(page_run(described, after_constraints) == page_run(counted, after_count));
    assert(page_run(listed, after_columns) == page_run(described, after_constraints));
    assert(page_run(start, events) == page_run(listed, after_columns));
}

/// A table without rows is no error: its page has the columns, no row, and
/// a count of zero.
pub proof fn lemma_page_of_empty_table(
    schema: Seq<char>,
    table: Seq<char>,
    limit: i64,
    offset: i64,
    records: Seq<ColumnRecordView>,
    constraints: Seq<KeyConstraintView>,
)
    requires
        names_table(records, schema, table),
    ensures
        page_run(
            page_start(schema, table, limit, offset),
            seq![
                PageEventView::Columns(records),
                PageEventView::KeyConstraints(constraints),
                PageEventView::RowCount(0),
                PageEventView::Rows(Seq::empty()),
            ],
        ) == PageProgressView::Done(
            Ok(
                TableDataView {
                    columns: column_infos_of(records, constraints),
                    rows: Seq::empty(),
                    total_rows: 0,
                },
            ),
        ),
        column_infos_of(records, constraints).len() > 0,
{
    lemma_page_of_known_table(
        schema,
        table,
        limit,
        offset,
        records,
        constraints,
        0,
        Seq::empty(),
    );
    assert(rows_entries(Seq::empty()) =~= Seq::empty());
}

/// A table that the catalog does not list under the names asked for is
/// rejected on the answer to the first request, which writes neither name
/// into its statement.
pub proof fn lemma_unknown_table_is_rejected(
    schema: Seq<char>,
    table: Seq<char>,
    limit: i64,
    offset: i64,
    records: Seq<ColumnRecordView>,
)
    requires
        !names_table(records, schema, table),
    ensures
        page_query_of(page_request_of(page_start(schema, table, limit, offset))).statement
            == GET_COLUMNS@,
        page_step(page_start(schema, table, limit, offset), PageEventView::Columns(records))
            == PageProgressView::Done(Err(PageErrorView::UnknownTable { schema, table })),
{
}

/// The window does not reach the count: given the same answers, two
/// fetchings of one table that differ in limit and offset return pages with
/// the same columns and the same number of rows.
pub proof fn lemma_total_rows_ignores_window(
    schema: Seq<char>,
    table: Seq<char>,
    limit: i64,
    offset: i64,
    other_limit: i64,
    other_offset: i64,
    records: Seq<ColumnRecordView>,
    constraints: Seq<KeyConstraintView>,
    total_rows: i64,
    rows: Seq<Seq<RawCellView>>,
    other_rows: Seq<Seq<RawCellView>>,
)
    requires
        names_table(records, schema, table),
    ensures
        ({
            &&& page_run(
                page_start(schema, table, limit, offset),
                seq![
                    PageEventView::Columns(records),
                    PageEventView::KeyConstraints(constraints),
                    PageEventView::RowCount(total_rows),
                    PageEventView::Rows(rows),
                ],
            ) matches PageProgressView::Done(Ok(page))
            &&& page_run(
                page_start(schema, table, other_limit, other_offset),
                seq![
                    PageEventView::Columns(records),
                    PageEventView::KeyConstraints(constraints),
                    PageEventView::RowCount(total_rows),
                    PageEventView::Rows(other_rows),
                ],
            ) matches PageProgressView::Done(Ok(other))
            &&& page.total_rows == total_rows
            &&& other.total_rows == total_rows
            &&& page.columns == other.columns
        }),
{
    lemma_page_of_known_table(schema, table, limit, offset, records, constraints, total_rows, rows);
    lemma_page_of_known_table(
        schema,
        table,
        other_limit,
        other_offset,
        records,
        constraints,
        total_rows,
        other_rows,
    );
}

/// Up to the request for the rows, what is asked of the database does not
/// depend on the limit and the offset.
pub proof fn lemma_requests_before_rows_ignore_window(
    state: PageWalkView,
    other_limit: i64,
    other_offset: i64,
)
    requires
        !(state.stage is Rows),
    ensures
        page_request_of(state) == page_request_of(
            PageWalkView { limit: other_limit, offset: other_offset, ..state },
        ),
{
}

} // verus!

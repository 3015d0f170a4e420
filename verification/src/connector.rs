//! The connector: the decisions taken while a connection is opened,
//! registered and its database walked.
//!
//! The caller performs what a [`Connector`] requests and hands the answer to
//! [`Connector::step`]. The walk asks for the schemas, then, schema by schema
//! in the catalog's order, for the tables and the functions of each.

use crate::catalog::{
    FunctionInfo, FunctionInfoView, SchemaInfo, SchemaInfoView, TableInfo, TableInfoView,
};
use crate::config::{
    connection_id_of, connection_string_of, DatabaseConfig, DatabaseConfigView,
};
use crate::model::views;
use crate::queries::{
    plain_query, schema_query, ParameterView, Query, QueryView, GET_FUNCTIONS, GET_SCHEMAS,
    GET_TABLES,
};
use crate::registry::ClientState;
use std::sync::Arc;
use vstd::prelude::*;
use vstd::string::*;

verus! {

/// What the snapshot says of one schema, with the identity of the
/// connection it was read through.
#[derive(Debug, PartialEq, Eq)]
pub struct SnapshotEntry {
    pub connection_id: String,
    pub name: String,
    pub host: String,
    pub port: u16,
    pub username: String,
    pub database: String,
    pub schema: String,
    pub tables: Vec<TableInfo>,
    pub functions: Vec<FunctionInfo>,
}

/// The mathematical value of a [`SnapshotEntry`].
pub struct SnapshotEntryView {
    pub connection_id: Seq<char>,
    pub name: Seq<char>,
    pub host: Seq<char>,
    pub port: u16,
    pub username: Seq<char>,
    pub database: Seq<char>,
    pub schema: Seq<char>,
    pub tables: Seq<TableInfoView>,
    pub functions: Seq<FunctionInfoView>,
}

impl View for SnapshotEntry {
    type V = SnapshotEntryView;

    open spec fn view(&self) -> SnapshotEntryView {
        SnapshotEntryView {
            connection_id: self.connection_id@,
            name: self.name@,
            host: self.host@,
            port: self.port,
            username: self.username@,
            database: self.database@,
            schema: self.schema@,
            tables: views(self.tables@),
            functions: views(self.functions@),
        }
    }
}

/// The connection-status notification for the observers of the client.
#[derive(Debug, PartialEq, Eq)]
pub enum ConnectionStatus {
    /// The connection is open and the database was walked: `data` is the
    /// snapshot.
    Success { message: String, data: Vec<SnapshotEntry> },
    /// The connection could not be opened.
    Error { message: String },
}

/// The mathematical value of a [`ConnectionStatus`].
pub enum ConnectionStatusView {
    Success { message: Seq<char>, data: Seq<SnapshotEntryView> },
    Error { message: Seq<char> },
}

impl View for ConnectionStatus {
    type V = ConnectionStatusView;

    open spec fn view(&self) -> ConnectionStatusView {
        match self {
            ConnectionStatus::Success { message, data } => ConnectionStatusView::Success {
                message: message@,
                data: views(data@),
            },
            ConnectionStatus::Error { message } => ConnectionStatusView::Error {
                message: message@,
            },
        }
    }
}

/// Why a connect attempt failed. Each variant carries the driver's message.
#[derive(Debug, PartialEq, Eq)]
pub enum ConnectError {
    /// The connection could not be opened.
    Connection(String),
    /// The schemas could not be listed.
    Schemas(String),
    /// The tables of a schema could not be listed.
    Tables(String),
    /// The functions of a schema could not be listed.
    Functions(String),
}

/// The mathematical value of a [`ConnectError`].
pub enum ConnectErrorView {
    Connection(Seq<char>),
    Schemas(Seq<char>),
    Tables(Seq<char>),
    Functions(Seq<char>),
}

impl View for ConnectError {
    type V = ConnectErrorView;

    open spec fn view(&self) -> ConnectErrorView {
        match self {
            ConnectError::Connection(message) => ConnectErrorView::Connection(message@),
            ConnectError::Schemas(message) => ConnectErrorView::Schemas(message@),
            ConnectError::Tables(message) => ConnectErrorView::Tables(message@),
            ConnectError::Functions(message) => ConnectErrorView::Functions(message@),
        }
    }
}

/// The text of a connect error: the driver's message, verbatim for a failed
/// connection and after a few words that name the step for a failed query.
pub open spec fn connect_error_text(error: ConnectErrorView) -> Seq<char> {
    match error {
        ConnectErrorView::Connection(message) => message,
        ConnectErrorView::Schemas(message) => "Failed to get schemas: "@ + message,
        ConnectErrorView::Tables(message) => "Failed to get tables: "@ + message,
        ConnectErrorView::Functions(message) => "Failed to get functions: "@ + message,
    }
}

impl ConnectError {
    /// The text of the error, for the caller.
    pub fn message(&self) -> (text: String)
        ensures
            text@ == connect_error_text(self@),
    {
        match self {
            ConnectError::Connection(message) => message.clone(),
            ConnectError::Schemas(message) => String::from_str("Failed to get schemas: ").concat(
                message.as_str(),
            ),
            ConnectError::Tables(message) => String::from_str("Failed to get tables: ").concat(
                message.as_str(),
            ),
            ConnectError::Functions(message) => String::from_str(
                "Failed to get functions: ",
            ).concat(message.as_str()),
        }
    }
}

/// How a connect attempt ended: what the observers are told, if anything,
/// and what the caller gets.
#[derive(Debug, PartialEq, Eq)]
pub struct ConnectOutcome {
    pub notification: Option<ConnectionStatus>,
    pub result: Result<String, ConnectError>,
}

/// The mathematical value of a [`ConnectOutcome`].
pub struct ConnectOutcomeView {
    pub notification: Option<ConnectionStatusView>,
    pub result: Result<Seq<char>, ConnectErrorView>,
}

impl View for ConnectOutcome {
    type V = ConnectOutcomeView;

    open spec fn view(&self) -> ConnectOutcomeView {
        ConnectOutcomeView {
            notification: match self.notification {
                Some(status) => Some(status@),
                None => None,
            },
            result: match self.result {
                Ok(message) => Ok(message@),
                Err(error) => Err(error@),
            },
        }
    }
}

/// What the caller is to do next.
#[derive(Debug, PartialEq, Eq)]
pub enum ConnectRequest {
    /// Open a connection with this connection string.
    Open { connection_string: String },
    /// List the schemas.
    Schemas,
    /// List the tables of a schema.
    Tables { schema: String },
    /// List the functions of a schema.
    Functions { schema: String },
}

/// The mathematical value of a [`ConnectRequest`].
pub enum ConnectRequestView {
    Open { connection_string: Seq<char> },
    Schemas,
    Tables { schema: Seq<char> },
    Functions { schema: Seq<char> },
}

impl View for ConnectRequest {
    type V = ConnectRequestView;

    open spec fn view(&self) -> ConnectRequestView {
        match self {
            ConnectRequest::Open { connection_string } => ConnectRequestView::Open {
                connection_string: connection_string@,
            },
            ConnectRequest::Schemas => ConnectRequestView::Schemas,
            ConnectRequest::Tables { schema } => ConnectRequestView::Tables { schema: schema@ },
            ConnectRequest::Functions { schema } => ConnectRequestView::Functions {
                schema: schema@,
            },
        }
    }
}

/// The query that a request stands for; opening a connection is none.
pub open spec fn connect_query_of(request: ConnectRequestView) -> Option<QueryView> {
    match request {
        ConnectRequestView::Open { .. } => None,
        ConnectRequestView::Schemas => Some(
            QueryView { statement: GET_SCHEMAS@, parameters: Seq::empty() },
        ),
        ConnectRequestView::Tables { schema } => Some(
            QueryView { statement: GET_TABLES@, parameters: seq![ParameterView::Text(schema)] },
        ),
        ConnectRequestView::Functions { schema } => Some(
            QueryView { statement: GET_FUNCTIONS@, parameters: seq![ParameterView::Text(schema)] },
        ),
    }
}

impl ConnectRequest {
    /// The statement to send for this request, with its parameters.
    pub fn query(&self) -> (query: Option<Query>)
        ensures
            match query {
                Some(query) => connect_query_of(self@) == Some(query@),
                None => connect_query_of(self@) is None,
            },
    {
        match self {
            ConnectRequest::Open { .. } => None,
            ConnectRequest::Schemas => Some(plain_query(GET_SCHEMAS)),
            ConnectRequest::Tables { schema } => Some(schema_query(GET_TABLES, schema.as_str())),
            ConnectRequest::Functions { schema } => Some(
                schema_query(GET_FUNCTIONS, schema.as_str()),
            ),
        }
    }
}

/// What came back from the last request.
pub enum ConnectEvent<C> {
    /// The connection is open; this is its handle.
    Connected(Arc<C>),
    /// The request failed, with the driver's message.
    Failed(String),
    /// The schemas, in the catalog's order.
    Schemas(Vec<SchemaInfo>),
    /// The tables of the schema asked for.
    Tables(Vec<TableInfo>),
    /// The functions of the schema asked for.
    Functions(Vec<FunctionInfo>),
}

/// The mathematical value of a [`ConnectEvent`].
pub enum ConnectEventView<C> {
    Connected(Arc<C>),
    Failed(Seq<char>),
    Schemas(Seq<SchemaInfoView>),
    Tables(Seq<TableInfoView>),
    Functions(Seq<FunctionInfoView>),
}

impl<C> View for ConnectEvent<C> {
    type V = ConnectEventView<C>;

    open spec fn view(&self) -> ConnectEventView<C> {
        match self {
            ConnectEvent::Connected(handle) => ConnectEventView::Connected(*handle),
            ConnectEvent::Failed(message) => ConnectEventView::Failed(message@),
            ConnectEvent::Schemas(schemas) => ConnectEventView::Schemas(views(schemas@)),
            ConnectEvent::Tables(tables) => ConnectEventView::Tables(views(tables@)),
            ConnectEvent::Functions(functions) => ConnectEventView::Functions(views(functions@)),
        }
    }
}

/// Where a connect attempt stands.
pub enum StageView {
    /// The connection is being opened.
    Connecting,
    /// The schemas are being listed.
    Schemas,
    /// The tables of the next schema are being listed.
    Tables,
    /// The functions of the next schema are being listed; its tables are
    /// known.
    Functions { tables: Seq<TableInfoView> },
}

/// The mathematical value of a [`Connector`]: the parameters, the stage, the
/// schemas to walk and the entries of the schemas walked so far. The next
/// schema is the one whose place is the number of entries.
pub struct ConnectorView {
    pub config: DatabaseConfigView,
    pub stage: StageView,
    pub schemas: Seq<SchemaInfoView>,
    pub entries: Seq<SnapshotEntryView>,
}

/// A connect attempt that goes on, or its end.
pub enum ConnectProgressView {
    Pending(ConnectorView),
    Done(ConnectOutcomeView),
}

/// While tables or functions are listed, a schema is left to walk.
pub open spec fn connector_inv(state: ConnectorView) -> bool {
    match state.stage {
        StageView::Tables => state.entries.len() < state.schemas.len(),
        StageView::Functions { .. } => state.entries.len() < state.schemas.len(),
        _ => true,
    }
}

/// The state in which a connect attempt starts.
pub open spec fn connector_start(config: DatabaseConfigView) -> ConnectorView {
    ConnectorView {
        config,
        stage: StageView::Connecting,
        schemas: Seq::empty(),
        entries: Seq::empty(),
    }
}

/// The snapshot entry of one schema.
pub open spec fn entry_of(
    config: DatabaseConfigView,
    schema: Seq<char>,
    tables: Seq<TableInfoView>,
    functions: Seq<FunctionInfoView>,
) -> SnapshotEntryView {
    SnapshotEntryView {
        connection_id: connection_id_of(config.host, config.database),
        name: config.connection_name,
        host: config.host,
        port: config.port,
        username: config.user,
        database: config.database,
        schema,
        tables,
        functions,
    }
}

/// The end of a walk that went through: the observers get the snapshot, the
/// caller a word of success.
pub open spec fn success_of(entries: Seq<SnapshotEntryView>) -> ConnectOutcomeView {
    ConnectOutcomeView {
        notification: Some(
            ConnectionStatusView::Success { message: "Connected successfully"@, data: entries },
        ),
        result: Ok("Connected successfully"@),
    }
}

/// The end of a walk that a failed query cut short: the caller gets the
/// error, the observers are told nothing.
pub open spec fn walk_failure_of(error: ConnectErrorView) -> ConnectOutcomeView {
    ConnectOutcomeView { notification: None, result: Err(error) }
}

/// The end of an attempt whose connection could not be opened: the
/// observers and the caller both get the driver's message.
pub open spec fn connection_failure_of(message: Seq<char>) -> ConnectOutcomeView {
    ConnectOutcomeView {
        notification: Some(ConnectionStatusView::Error { message }),
        result: Err(ConnectErrorView::Connection(message)),
    }
}

/// What a connect attempt in `state` asks of the caller.
pub open spec fn connect_request_of(state: ConnectorView) -> ConnectRequestView {
    match state.stage {
        StageView::Connecting => ConnectRequestView::Open {
            connection_string: connection_string_of(state.config),
        },
        StageView::Schemas => ConnectRequestView::Schemas,
        StageView::Tables => ConnectRequestView::Tables {
            schema: state.schemas[state.entries.len() as int].name,
        },
        StageView::Functions { .. } => ConnectRequestView::Functions {
            schema: state.schemas[state.entries.len() as int].name,
        },
    }
}

/// The transition of a connect attempt. An event that answers the pending
/// request moves the attempt on or ends it; any other event is discarded and
/// the attempt stays where it is.
pub open spec fn connect_step<C>(
    state: ConnectorView,
    event: ConnectEventView<C>,
) -> ConnectProgressView {
    match (state.stage, event) {
        (StageView::Connecting, ConnectEventView::Connected(_)) => ConnectProgressView::Pending(
            ConnectorView { stage: StageView::Schemas, ..state },
        ),
        (StageView::Connecting, ConnectEventView::Failed(message)) => ConnectProgressView::Done(
            connection_failure_of(message),
        ),
        (StageView::Schemas, ConnectEventView::Schemas(schemas)) => if schemas.len() == 0 {
            ConnectProgressView::Done(success_of(Seq::empty()))
        } else {
            ConnectProgressView::Pending(
                ConnectorView {
                    stage: StageView::Tables,
                    schemas,
                    entries: Seq::empty(),
                    ..state
                },
            )
        },
        (StageView::Schemas, ConnectEventView::Failed(message)) => ConnectProgressView::Done(
            walk_failure_of(ConnectErrorView::Schemas(message)),
        ),
        (StageView::Tables, ConnectEventView::Tables(tables)) => ConnectProgressView::Pending(
            ConnectorView { stage: StageView::Functions { tables }, ..state },
        ),
        (StageView::Tables, ConnectEventView::Failed(message)) => ConnectProgressView::Done(
            walk_failure_of(ConnectErrorView::Tables(message)),
        ),
        (StageView::Functions { tables }, ConnectEventView::Functions(functions)) => {
            let entries = state.entries.push(
                entry_of(
                    state.config,
                    state.schemas[state.entries.len() as int].name,
                    tables,
                    functions,
                ),
            );
            if entries.len() < state.schemas.len() {
                ConnectProgressView::Pending(
                    ConnectorView { stage: StageView::Tables, entries, ..state },
                )
            } else {
                ConnectProgressView::Done(success_of(entries))
            }
        },
        (StageView::Functions { .. }, ConnectEventView::Failed(message)) => {
            ConnectProgressView::Done(walk_failure_of(ConnectErrorView::Functions(message)))
        },
        _ => ConnectProgressView::Pending(state),
    }
}

/// The registry after a step: a handle that answers the request to open the
/// connection is registered under the connection's identifier; no other
/// step touches the registry.
pub open spec fn registry_after<C>(
    state: ConnectorView,
    event: ConnectEventView<C>,
    registry: Map<Seq<char>, Arc<C>>,
) -> Map<Seq<char>, Arc<C>> {
    match (state.stage, event) {
        (StageView::Connecting, ConnectEventView::Connected(handle)) => registry.insert(
            connection_id_of(state.config.host, state.config.database),
            handle,
        ),
        _ => registry,
    }
}

enum Stage {
    Connecting,
    Schemas,
    Tables,
    Functions { tables: Vec<TableInfo> },
}

spec fn stage_view(stage: Stage) -> StageView {
    match stage {
        Stage::Connecting => StageView::Connecting,
        Stage::Schemas => StageView::Schemas,
        Stage::Tables => StageView::Tables,
        Stage::Functions { tables } => StageView::Functions { tables: views(tables@) },
    }
}

/// A connect attempt under way.
pub struct Connector {
    config: DatabaseConfig,
    stage: Stage,
    schemas: Vec<SchemaInfo>,
    entries: Vec<SnapshotEntry>,
}

impl View for Connector {
    type V = ConnectorView;

    closed spec fn view(&self) -> ConnectorView {
        ConnectorView {
            config: self.config@,
            stage: stage_view(self.stage),
            schemas: views(self.schemas@),
            entries: views(self.entries@),
        }
    }
}

/// A connect attempt that goes on, or its end.
pub enum ConnectProgress {
    Pending(Connector),
    Done(ConnectOutcome),
}

impl View for ConnectProgress {
    type V = ConnectProgressView;

    open spec fn view(&self) -> ConnectProgressView {
        match self {
            ConnectProgress::Pending(connector) => ConnectProgressView::Pending(connector@),
            ConnectProgress::Done(outcome) => ConnectProgressView::Done(outcome@),
        }
    }
}

fn success(entries: Vec<SnapshotEntry>) -> (outcome: ConnectOutcome)
    ensures
        outcome@ == success_of(views(entries@)),
{
    ConnectOutcome {
        notification: Some(
            ConnectionStatus::Success {
                message: String::from_str("Connected successfully"),
                data: entries,
            },
        ),
        result: Ok(String::from_str("Connected successfully")),
    }
}

fn walk_failure(error: ConnectError) -> (outcome: ConnectOutcome)
    ensures
        outcome@ == walk_failure_of(error@),
{
    ConnectOutcome { notification: None, result: Err(error) }
}

fn snapshot_entry(
    config: &DatabaseConfig,
    schema: &SchemaInfo,
    tables: Vec<TableInfo>,
    functions: Vec<FunctionInfo>,
) -> (entry: SnapshotEntry)
    ensures
        entry@ == entry_of(config@, schema@.name, views(tables@), views(functions@)),
{
    SnapshotEntry {
        connection_id: config.connection_id(),
        name: config.connection_name.clone(),
        host: config.host.clone(),
        port: config.port,
        username: config.user.clone(),
        database: config.database.clone(),
        schema: schema.name.clone(),
        tables,
        functions,
    }
}

/// Starts a connect attempt with the given parameters. The first request is
/// to open the connection.
pub fn connect_database(config: DatabaseConfig) -> (connector: Connector)
    ensures
        connector@ == connector_start(config@),
{
    let connector = Connector {
        config,
        stage: Stage::Connecting,
        schemas: Vec::new(),
        entries: Vec::new(),
    };
    assert(connector@.schemas =~= Seq::empty());
    assert(connector@.entries =~= Seq::empty());
    connector
}

impl Connector {
    #[verifier::type_invariant]
    spec fn schema_left(self) -> bool {
        connector_inv(self@)
    }

    /// What the caller is to do next.
    pub fn request(&self) -> (request: ConnectRequest)
        ensures
            request@ == connect_request_of(self@),
    {
        proof {
            use_type_invariant(self);
        }
        match &self.stage {
            Stage::Connecting => ConnectRequest::Open {
                connection_string: self.config.connection_string(),
            },
            Stage::Schemas => ConnectRequest::Schemas,
            Stage::Tables => ConnectRequest::Tables {
                schema: self.schemas[self.entries.len()].name.clone(),
            },
            Stage::Functions { .. } => ConnectRequest::Functions {
                schema: self.schemas[self.entries.len()].name.clone(),
            },
        }
    }

    /// Takes the answer to the pending request and moves the attempt on. The
    /// handle of a connection that was opened is registered in `registry`
    /// under the connection's identifier before anything is asked of the
    /// database, and stays registered whatever the walk runs into.
    pub fn step<C>(self, event: ConnectEvent<C>, registry: &mut ClientState<C>) -> (progress:
        ConnectProgress)
        ensures
            progress@ == connect_step(self@, event@),
            final(registry)@ == registry_after(self@, event@, old(registry)@),
    {
        proof {
            use_type_invariant(&self);
        }
        let Connector { config, stage, schemas, entries } = self;
        match stage {
            Stage::Connecting => match event {
                ConnectEvent::Connected(handle) => {
                    registry.add_client(config.connection_id(), handle);
                    ConnectProgress::Pending(
                        Connector { config, stage: Stage::Schemas, schemas, entries },
                    )
                },
                ConnectEvent::Failed(message) => ConnectProgress::Done(
                    ConnectOutcome {
                        notification: Some(ConnectionStatus::Error { message: message.clone() }),
                        result: Err(ConnectError::Connection(message)),
                    },
                ),
                _ => ConnectProgress::Pending(
                    Connector { config, stage: Stage::Connecting, schemas, entries },
                ),
            },
            Stage::Schemas => match event {
                ConnectEvent::Schemas(listed) => {
                    let none: Vec<SnapshotEntry> = Vec::new();
                    assert(views(none@) =~= Seq::empty());
                    if listed.len() == 0 {
                        ConnectProgress::Done(success(none))
                    } else {
                        ConnectProgress::Pending(
                            Connector {
                                config,
                                stage: Stage::Tables,
                                schemas: listed,
                                entries: none,
                            },
                        )
                    }
                },
                ConnectEvent::Failed(message) => ConnectProgress::Done(
                    walk_failure(ConnectError::Schemas(message)),
                ),
                _ => ConnectProgress::Pending(
                    Connector { config, stage: Stage::Schemas, schemas, entries },
                ),
            },
            Stage::Tables => match event {
                ConnectEvent::Tables(tables) => ConnectProgress::Pending(
                    Connector { config, stage: Stage::Functions { tables }, schemas, entries },
                ),
                ConnectEvent::Failed(message) => ConnectProgress::Done(
                    walk_failure(ConnectError::Tables(message)),
                ),
                _ => ConnectProgress::Pending(
                    Connector { config, stage: Stage::Tables, schemas, entries },
                ),
            },
            Stage::Functions { tables } => match event {
                ConnectEvent::Functions(functions) => {
                    let ghost before = views(entries@);
                    let mut entries = entries;
                    let entry = snapshot_entry(&config, &schemas[entries.len()], tables, functions);
                    entries.push(entry);
                    assert(views(entries@) =~= before.push(entry@));
                    if entries.len() < schemas.len() {
                        ConnectProgress::Pending(
                            Connector { config, stage: Stage::Tables, schemas, entries },
                        )
                    } else {
                        ConnectProgress::Done(success(entries))
                    }
                },
                ConnectEvent::Failed(message) => ConnectProgress::Done(
                    walk_failure(ConnectError::Functions(message)),
                ),
                _ => ConnectProgress::Pending(
                    Connector { config, stage: Stage::Functions { tables }, schemas, entries },
                ),
            },
        }
    }
}

/// Where a connect attempt stands after the events `events`, taken in
/// order. Events after the end of the attempt are not looked at.
pub open spec fn connect_run<C>(
    state: ConnectorView,
    events: Seq<ConnectEventView<C>>,
) -> ConnectProgressView
    decreases events.len(),
{
    if events.len() == 0 {
        ConnectProgressView::Pending(state)
    } else {
        match connect_step(state, events[0]) {
            ConnectProgressView::Pending(next) => connect_run(next, events.drop_first()),
            ConnectProgressView::Done(outcome) => ConnectProgressView::Done(outcome),
        }
    }
}

/// The registry after the events `events`, taken in order.
pub open spec fn registry_run<C>(
    state: ConnectorView,
    events: Seq<ConnectEventView<C>>,
    registry: Map<Seq<char>, Arc<C>>,
) -> Map<Seq<char>, Arc<C>>
    decreases events.len(),
{
    if events.len() == 0 {
        registry
    } else {
        match connect_step(state, events[0]) {
            ConnectProgressView::Pending(next) => registry_run(
                next,
                events.drop_first(),
                registry_after(state, events[0], registry),
            ),
            ConnectProgressView::Done(_) => registry_after(state, events[0], registry),
        }
    }
}

/// The answers of the database during a walk: for each schema in turn its
/// tables, then its functions.
pub open spec fn walk_answers<C>(
    tables: Seq<Seq<TableInfoView>>,
    functions: Seq<Seq<FunctionInfoView>>,
) -> Seq<ConnectEventView<C>> {
    Seq::new(
        2 * tables.len(),
        |i: int|
            if i % 2 == 0 {
                ConnectEventView::Tables(tables[i / 2])
            } else {
                ConnectEventView::Functions(functions[i / 2])
            },
    )
}

/// The snapshot of a database: one entry per schema, in the order of the
/// schemas, with the tables and the functions listed for that schema.
pub open spec fn snapshot_of(
    config: DatabaseConfigView,
    schemas: Seq<SchemaInfoView>,
    tables: Seq<Seq<TableInfoView>>,
    functions: Seq<Seq<FunctionInfoView>>,
) -> Seq<SnapshotEntryView> {
    Seq::new(
        schemas.len(),
        |i: int| entry_of(config, schemas[i].name, tables[i], functions[i]),
    )
}

/// Every step keeps the invariant of the attempt.
pub proof fn lemma_step_keeps_invariant<C>(state: ConnectorView, event: ConnectEventView<C>)
    requires
        connector_inv(state),
    ensures
        connect_step(state, event) matches ConnectProgressView::Pending(next) ==> connector_inv(
            next,
        ),
{
}

/// A step never removes a connection from the registry, and changes no
/// entry but that of the attempt's own identifier.
pub proof fn lemma_step_keeps_registered<C>(
    state: ConnectorView,
    event: ConnectEventView<C>,
    registry: Map<Seq<char>, Arc<C>>,
    id: Seq<char>,
)
    ensures
        registry.contains_key(id) ==> registry_after(state, event, registry).contains_key(id),
        registry.contains_key(id) && id != connection_id_of(state.config.host, state.config.database)
            ==> registry_after(state, event, registry)[id] == registry[id],
{
}

/// Once the connection of an attempt has been opened, its handle is
/// registered under the identifier derived from the host and the database,
/// whatever the walk of the database then runs into: a page asked for under
/// that identifier is never refused for want of a connection.
pub proof fn lemma_opened_connection_is_registered<C>(
    config: DatabaseConfigView,
    handle: Arc<C>,
    events: Seq<ConnectEventView<C>>,
    registry: Map<Seq<char>, Arc<C>>,
)
    ensures
        registry_run(
            connector_start(config),
            seq![ConnectEventView::Connected(handle)] + events,
            registry,
        ).contains_key(connection_id_of(config.host, config.database)),
        registry_run(
            connector_start(config),
            seq![ConnectEventView::Connected(handle)] + events,
            registry,
        )[connection_id_of(config.host, config.database)] == handle,
{
    let start = connector_start(config);
    let all = seq![ConnectEventView::Connected(handle)] + events;
    let id = connection_id_of(config.host, config.database);
    let next = ConnectorView { stage: StageView::Schemas, ..start };
    assert(all[0] == ConnectEventView::Connected(handle));
    assert(all.drop_first() =~= events);
    assert(connect_step(start, all[0]) == ConnectProgressView::Pending(next));
    lemma_walk_leaves_registry(next, events, registry.insert(id, handle));
}

/// Past the opening of the connection no event changes the registry.
pub proof fn lemma_walk_leaves_registry<C>(
    state: ConnectorView,
    events: Seq<ConnectEventView<C>>,
    registry: Map<Seq<char>, Arc<C>>,
)
    requires
        !(state.stage is Connecting),
    ensures
        registry_run(state, events, registry) == registry,
    decreases events.len(),
{
    if events.len() > 0 {
        match connect_step(state, events[0]) {
            ConnectProgressView::Pending(next) => {
                lemma_walk_leaves_registry(next, events.drop_first(), registry);
            },
            ConnectProgressView::Done(_) => {},
        }
    }
}

/// A walk that the database answers throughout ends in success with the
/// snapshot of the database: the schemas in the catalog's order, each with
/// the tables and functions listed for it.
pub proof fn lemma_walk_yields_snapshot<C>(
    config: DatabaseConfigView,
    handle: Arc<C>,
    schemas: Seq<SchemaInfoView>,
    tables: Seq<Seq<TableInfoView>>,
    functions: Seq<Seq<FunctionInfoView>>,
)
    requires
        tables.len() == schemas.len(),
        functions.len() == schemas.len(),
    ensures
        connect_run(
            connector_start(config),
            seq![ConnectEventView::<C>::Connected(handle), ConnectEventView::Schemas(schemas)]
                + walk_answers(tables, functions),
        ) == ConnectProgressView::Done(
            success_of(snapshot_of(config, schemas, tables, functions)),
        ),
{
    let start = connector_start(config);
    let answers = walk_answers::<C>(tables, functions);
    let all = seq![ConnectEventView::<C>::Connected(handle), ConnectEventView::Schemas(schemas)]
        + answers;
    let listing = ConnectorView { stage: StageView::Schemas, ..start };
    assert(all[0] == ConnectEventView::<C>::Connected(handle));
    assert(connect_step(start, all[0]) == ConnectProgressView::Pending(listing));
    let rest = all.drop_first();
    assert(rest[0] == ConnectEventView::<C>::Schemas(schemas));
    assert(rest.drop_first() =~= answers);
    assert(connect_run(start, all) == connect_run(listing, rest));
    if schemas.len() == 0 {
        assert(snapshot_of(config, schemas, tables, functions) =~= Seq::empty());
    } else {
        let walking = ConnectorView {
            stage: StageView::Tables,
            schemas,
            entries: Seq::empty(),
            ..listing
        };
        assert(connect_step(listing, rest[0]) == ConnectProgressView::Pending(walking));
        assert(answers.skip(0) =~= answers);
        assert(walking.entries =~= snapshot_of(config, schemas, tables, functions).take(0));
        lemma_walk_from::<C>(walking, tables, functions, 0);
    }
}

proof fn lemma_walk_from<C>(
    state: ConnectorView,
    tables: Seq<Seq<TableInfoView>>,
    functions: Seq<Seq<FunctionInfoView>>,
    done: int,
)
    requires
        tables.len() == state.schemas.len(),
        functions.len() == state.schemas.len(),
        0 <= done < state.schemas.len(),
        state.stage is Tables,
        state.entries == snapshot_of(state.config, state.schemas, tables, functions).take(done),
    ensures
        connect_run(state, walk_answers::<C>(tables, functions).skip(2 * done))
            == ConnectProgressView::Done(
            success_of(snapshot_of(state.config, state.schemas, tables, functions)),
        ),
    decreases state.schemas.len() - done,
{
    let snapshot = snapshot_of(state.config, state.schemas, tables, functions);
    let answers = walk_answers::<C>(tables, functions);
    let events = answers.skip(2 * done);
    assert(events[0] == answers[2 * done]);
    assert((2 * done) % 2 == 0 && (2 * done) / 2 == done) by (nonlinear_arith)
        requires
            done >= 0,
    ;
    assert(events[0] == ConnectEventView::<C>::Tables(tables[done]));
    let listed = ConnectorView { stage: StageView::Functions { tables: tables[done] }, ..state };
    assert(connect_step(state, events[0]) == ConnectProgressView::Pending(listed));
    let after = events.drop_first();
    assert(after[0] == answers[2 * done + 1]);
    assert((2 * done + 1) % 2 == 1 && (2 * done + 1) / 2 == done) by (nonlinear_arith)
        requires
            done >= 0,
    ;
    assert(after[0] == ConnectEventView::<C>::Functions(functions[done]));
    let entries = state.entries.push(
        entry_of(state.config, state.schemas[done].name, tables[done], functions[done]),
    );
    assert(entries =~= snapshot.take(done + 1));
    assert(after.drop_first() =~= answers.skip(2 * (done + 1)));
    assert(connect_run(state, events) == connect_run(listed, after));
    if done + 1 < state.schemas.len() {
        let next = ConnectorView { stage: StageView::Tables, entries, ..listed };
        assert(connect_step(listed, after[0]) == ConnectProgressView::Pending(next));
        assert(connect_run(listed, after) == connect_run(next, after.drop_first()));
        lemma_walk_from::<C>(next, tables, functions, done + 1);
    } else {
        assert(snapshot.take(done + 1) =~= snapshot);
        assert(connect_step(listed, after[0]) == ConnectProgressView::Done(success_of(entries)));
    }
}

} // verus!

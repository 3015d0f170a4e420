use database_connectors::catalog::{FunctionInfo, SchemaInfo, TableInfo};
use database_connectors::config::DatabaseConfig;
use database_connectors::connector::{
    connect_database, ConnectError, ConnectEvent, ConnectOutcome, ConnectProgress,
    ConnectRequest, ConnectionStatus, Connector, SnapshotEntry,
};
use database_connectors::queries::{Parameter, GET_FUNCTIONS, GET_SCHEMAS, GET_TABLES};
use database_connectors::registry::ClientState;
use std::sync::Arc;

fn sample() -> DatabaseConfig {
    DatabaseConfig {
        host: "localhost".to_string(),
        port: 5432,
        user: "postgres".to_string(),
        connection_name: "Local shop".to_string(),
        password: "secret".to_string(),
        database: "shop".to_string(),
        db_type: "postgres".to_string(),
    }
}

fn schema(name: &str) -> SchemaInfo {
    SchemaInfo { name: name.to_string() }
}

fn table(schema: &str, name: &str) -> TableInfo {
    TableInfo { schema: schema.to_string(), name: name.to_string(), type_: "table".to_string() }
}

fn function(schema: &str, name: &str) -> FunctionInfo {
    FunctionInfo {
        schema: schema.to_string(),
        name: name.to_string(),
        return_type: Some("integer".to_string()),
        arguments: "a integer, b integer".to_string(),
    }
}

fn entry(schema: &str, tables: Vec<TableInfo>, functions: Vec<FunctionInfo>) -> SnapshotEntry {
    SnapshotEntry {
        connection_id: "localhost:shop".to_string(),
        name: "Local shop".to_string(),
        host: "localhost".to_string(),
        port: 5432,
        username: "postgres".to_string(),
        database: "shop".to_string(),
        schema: schema.to_string(),
        tables,
        functions,
    }
}

fn pending(progress: ConnectProgress) -> Connector {
    match progress {
        ConnectProgress::Pending(connector) => connector,
        ConnectProgress::Done(outcome) => panic!("ended early: {:?}", outcome),
    }
}

fn done(progress: ConnectProgress) -> ConnectOutcome {
    match progress {
        ConnectProgress::Done(outcome) => outcome,
        ConnectProgress::Pending(connector) => {
            panic!("still asking for {:?}", connector.request())
        }
    }
}

fn opened(registry: &mut ClientState<u32>) -> Connector {
    pending(connect_database(sample()).step(ConnectEvent::Connected(Arc::new(1)), registry))
}

#[test]
fn an_attempt_starts_by_asking_for_the_connection() {
    let connector = connect_database(sample());
    assert_eq!(
        connector.request(),
        ConnectRequest::Open {
            connection_string: "host=localhost port=5432 user=postgres password=secret dbname=shop"
                .to_string()
        }
    );
    assert_eq!(connector.request().query(), None);
}

#[test]
fn a_failed_connection_ends_the_attempt_and_is_announced() {
    let mut registry: ClientState<u32> = ClientState::new();
    let outcome = done(
        connect_database(sample())
            .step(ConnectEvent::Failed("connection refused".to_string()), &mut registry),
    );
    assert_eq!(
        outcome.notification,
        Some(ConnectionStatus::Error { message: "connection refused".to_string() })
    );
    assert_eq!(outcome.result, Err(ConnectError::Connection("connection refused".to_string())));
    assert_eq!(outcome.result.unwrap_err().message(), "connection refused");
    assert!(registry.get_client("localhost:shop").is_none());
}

#[test]
fn an_opened_connection_is_registered_under_host_and_database() {
    let mut registry: ClientState<u32> = ClientState::new();
    let handle = Arc::new(9);
    let connector = pending(
        connect_database(sample()).step(ConnectEvent::Connected(Arc::clone(&handle)), &mut registry),
    );
    let found = registry.get_client("localhost:shop").unwrap();
    assert!(Arc::ptr_eq(&found, &handle));
    assert_eq!(connector.request(), ConnectRequest::Schemas);
}

#[test]
fn connecting_again_replaces_the_registered_handle() {
    let mut registry: ClientState<u32> = ClientState::new();
    let first = Arc::new(1);
    let second = Arc::new(2);
    pending(
        connect_database(sample()).step(ConnectEvent::Connected(Arc::clone(&first)), &mut registry),
    );
    pending(
        connect_database(sample()).step(ConnectEvent::Connected(Arc::clone(&second)), &mut registry),
    );
    let found = registry.get_client("localhost:shop").unwrap();
    assert!(Arc::ptr_eq(&found, &second));
    assert_eq!(Arc::strong_count(&first), 1);
}

#[test]
fn connecting_leaves_the_other_connections_registered() {
    let mut registry: ClientState<u32> = ClientState::new();
    registry.add_client("remote:archive".to_string(), Arc::new(5));
    opened(&mut registry);
    assert_eq!(registry.get_client("remote:archive"), Some(Arc::new(5)));
    assert_eq!(registry.get_client("localhost:shop"), Some(Arc::new(1)));
}

#[test]
fn the_requests_of_the_walk_carry_the_catalog_statements() {
    let mut registry: ClientState<u32> = ClientState::new();
    let connector = opened(&mut registry);
    let schemas = connector.request().query().unwrap();
    assert_eq!(schemas.statement, GET_SCHEMAS);
    assert_eq!(schemas.parameters, vec![]);

    let connector =
        pending(connector.step(ConnectEvent::Schemas(vec![schema("public")]), &mut registry));
    assert_eq!(connector.request(), ConnectRequest::Tables { schema: "public".to_string() });
    let tables = connector.request().query().unwrap();
    assert_eq!(tables.statement, GET_TABLES);
    assert_eq!(tables.parameters, vec![Parameter::Text("public".to_string())]);

    let connector = pending(connector.step(ConnectEvent::Tables(vec![]), &mut registry));
    assert_eq!(connector.request(), ConnectRequest::Functions { schema: "public".to_string() });
    let functions = connector.request().query().unwrap();
    assert_eq!(functions.statement, GET_FUNCTIONS);
    assert_eq!(functions.parameters, vec![Parameter::Text("public".to_string())]);
}

#[test]
fn a_database_without_schemas_gives_an_empty_snapshot() {
    let mut registry: ClientState<u32> = ClientState::new();
    let outcome = done(opened(&mut registry).step(ConnectEvent::Schemas(vec![]), &mut registry));
    assert_eq!(
        outcome.notification,
        Some(ConnectionStatus::Success {
            message: "Connected successfully".to_string(),
            data: vec![],
        })
    );
    assert_eq!(outcome.result, Ok("Connected successfully".to_string()));
}

#[test]
fn the_walk_goes_through_the_schemas_in_order() {
    let mut registry: ClientState<u32> = ClientState::new();
    let connector = opened(&mut registry);
    let connector = pending(connector.step(
        ConnectEvent::Schemas(vec![schema("public"), schema("sales"), schema("audit")]),
        &mut registry,
    ));
    assert_eq!(connector.request(), ConnectRequest::Tables { schema: "public".to_string() });
    let connector = pending(connector.step(
        ConnectEvent::Tables(vec![table("public", "users"), table("public", "orders")]),
        &mut registry,
    ));
    assert_eq!(connector.request(), ConnectRequest::Functions { schema: "public".to_string() });
    let connector = pending(
        connector.step(ConnectEvent::Functions(vec![function("public", "add")]), &mut registry),
    );
    assert_eq!(connector.request(), ConnectRequest::Tables { schema: "sales".to_string() });
    let connector = pending(connector.step(ConnectEvent::Tables(vec![]), &mut registry));
    assert_eq!(connector.request(), ConnectRequest::Functions { schema: "sales".to_string() });
    let connector = pending(connector.step(ConnectEvent::Functions(vec![]), &mut registry));
    assert_eq!(connector.request(), ConnectRequest::Tables { schema: "audit".to_string() });
    let connector = pending(
        connector.step(ConnectEvent::Tables(vec![table("audit", "log")]), &mut registry),
    );
    assert_eq!(connector.request(), ConnectRequest::Functions { schema: "audit".to_string() });
    let outcome = done(connector.step(ConnectEvent::Functions(vec![]), &mut registry));

    assert_eq!(outcome.result, Ok("Connected successfully".to_string()));
    assert_eq!(
        outcome.notification,
        Some(ConnectionStatus::Success {
            message: "Connected successfully".to_string(),
            data: vec![
                entry(
                    "public",
                    vec![table("public", "users"), table("public", "orders")],
                    vec![function("public", "add")],
                ),
                entry("sales", vec![], vec![]),
                entry("audit", vec![table("audit", "log")], vec![]),
            ],
        })
    );
}

#[test]
fn a_failure_to_list_schemas_ends_the_walk_without_announcement() {
    let mut registry: ClientState<u32> = ClientState::new();
    let outcome = done(
        opened(&mut registry).step(ConnectEvent::Failed("permission denied".to_string()), &mut registry),
    );
    assert_eq!(outcome.notification, None);
    assert_eq!(outcome.result, Err(ConnectError::Schemas("permission denied".to_string())));
    assert_eq!(
        outcome.result.unwrap_err().message(),
        "Failed to get schemas: permission denied"
    );
}

#[test]
fn a_failure_to_list_tables_ends_the_walk_without_announcement() {
    let mut registry: ClientState<u32> = ClientState::new();
    let connector = pending(
        opened(&mut registry).step(ConnectEvent::Schemas(vec![schema("public")]), &mut registry),
    );
    let outcome =
        done(connector.step(ConnectEvent::Failed("connection closed".to_string()), &mut registry));
    assert_eq!(outcome.notification, None);
    assert_eq!(outcome.result, Err(ConnectError::Tables("connection closed".to_string())));
    assert_eq!(
        outcome.result.unwrap_err().message(),
        "Failed to get tables: connection closed"
    );
}

#[test]
fn a_failure_to_list_functions_ends_the_walk_without_announcement() {
    let mut registry: ClientState<u32> = ClientState::new();
    let connector = pending(
        opened(&mut registry).step(ConnectEvent::Schemas(vec![schema("public")]), &mut registry),
    );
    let connector = pending(
        connector.step(ConnectEvent::Tables(vec![table("public", "users")]), &mut registry),
    );
    let outcome = done(connector.step(ConnectEvent::Failed("timeout".to_string()), &mut registry));
    assert_eq!(outcome.notification, None);
    assert_eq!(outcome.result, Err(ConnectError::Functions("timeout".to_string())));
    assert_eq!(outcome.result.unwrap_err().message(), "Failed to get functions: timeout");
}

#[test]
fn a_failed_walk_leaves_the_connection_registered() {
    let mut registry: ClientState<u32> = ClientState::new();
    let connector = opened(&mut registry);
    done(connector.step(ConnectEvent::Failed("permission denied".to_string()), &mut registry));
    assert_eq!(registry.get_client("localhost:shop"), Some(Arc::new(1)));
}

#[test]
fn a_connect_event_that_answers_nothing_is_discarded() {
    let mut registry: ClientState<u32> = ClientState::new();
    let connector = connect_database(sample());
    let connector =
        pending(connector.step(ConnectEvent::Schemas(vec![schema("public")]), &mut registry));
    assert_eq!(
        connector.request(),
        ConnectRequest::Open {
            connection_string: "host=localhost port=5432 user=postgres password=secret dbname=shop"
                .to_string()
        }
    );
    let connector = pending(connector.step(ConnectEvent::Tables(vec![]), &mut registry));
    let connector = pending(connector.step(ConnectEvent::Functions(vec![]), &mut registry));
    assert!(registry.get_client("localhost:shop").is_none());

    let connector = pending(connector.step(ConnectEvent::Connected(Arc::new(1)), &mut registry));
    let connector = pending(connector.step(ConnectEvent::Tables(vec![]), &mut registry));
    assert_eq!(connector.request(), ConnectRequest::Schemas);
    let connector = pending(connector.step(ConnectEvent::Functions(vec![]), &mut registry));
    assert_eq!(connector.request(), ConnectRequest::Schemas);

    let connector =
        pending(connector.step(ConnectEvent::Schemas(vec![schema("public")]), &mut registry));
    let connector =
        pending(connector.step(ConnectEvent::Schemas(vec![schema("other")]), &mut registry));
    let connector = pending(connector.step(ConnectEvent::Functions(vec![]), &mut registry));
    assert_eq!(connector.request(), ConnectRequest::Tables { schema: "public".to_string() });

    let connector = pending(
        connector.step(ConnectEvent::Tables(vec![table("public", "users")]), &mut registry),
    );
    let connector = pending(connector.step(ConnectEvent::Tables(vec![]), &mut registry));
    let connector = pending(connector.step(ConnectEvent::Schemas(vec![]), &mut registry));
    assert_eq!(connector.request(), ConnectRequest::Functions { schema: "public".to_string() });

    let outcome = done(connector.step(ConnectEvent::Functions(vec![]), &mut registry));
    assert_eq!(
        outcome.notification,
        Some(ConnectionStatus::Success {
            message: "Connected successfully".to_string(),
            data: vec![entry("public", vec![table("public", "users")], vec![])],
        })
    );
}

#[test]
fn a_second_handle_during_the_walk_is_not_registered() {
    let mut registry: ClientState<u32> = ClientState::new();
    let connector = opened(&mut registry);
    let connector = pending(connector.step(ConnectEvent::Connected(Arc::new(2)), &mut registry));
    assert_eq!(connector.request(), ConnectRequest::Schemas);
    assert_eq!(registry.get_client("localhost:shop"), Some(Arc::new(1)));
}

#[test]
fn a_procedure_is_listed_without_a_result_type() {
    let mut registry: ClientState<u32> = ClientState::new();
    let connector = pending(
        opened(&mut registry).step(ConnectEvent::Schemas(vec![schema("public")]), &mut registry),
    );
    let connector = pending(connector.step(ConnectEvent::Tables(vec![]), &mut registry));
    let procedure = || FunctionInfo {
        schema: "public".to_string(),
        name: "refresh".to_string(),
        return_type: None,
        arguments: String::new(),
    };
    let outcome = done(
        connector.step(
            ConnectEvent::Functions(vec![function("public", "add"), procedure()]),
            &mut registry,
        ),
    );
    assert_eq!(
        outcome.notification,
        Some(ConnectionStatus::Success {
            message: "Connected successfully".to_string(),
            data: vec![entry("public", vec![], vec![function("public", "add"), procedure()])],
        })
    );
}

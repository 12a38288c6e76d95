use holochain_state::schema::Connection;
use holochain_state::schema::Migration;
use holochain_state::schema::Schema;
use holochain_state::schema::SchemaError;

fn two_revisions() -> Schema {
    let first = Migration::initial("CREATE TABLE Header (hash BLOB PRIMARY KEY);");
    let second = Migration {
        schema: "CREATE TABLE Header (hash BLOB PRIMARY KEY, seq INTEGER);".to_string(),
        forward: "ALTER TABLE Header ADD COLUMN seq INTEGER;".to_string(),
        backward: None,
    };
    Schema::new(vec![first, second]).unwrap()
}

#[test]
fn initial_migration_holds_only_the_schema() {
    let migration = Migration::initial("CREATE TABLE Entry (hash BLOB PRIMARY KEY);");
    assert_eq!(migration.schema, "CREATE TABLE Entry (hash BLOB PRIMARY KEY);");
    assert_eq!(migration.forward, "");
    assert_eq!(migration.backward, None);
}

#[test]
fn schema_needs_a_revision() {
    assert_eq!(Schema::new(vec![]), None);
    let schema = Schema::new(vec![Migration::initial("x")]).unwrap();
    assert_eq!(schema.latest(), 1);
}

#[test]
fn fresh_store_gets_the_latest_schema_and_version() {
    let schema = two_revisions();
    let mut conn = Connection::fresh();
    assert_eq!(schema.initialize(&mut conn), Ok(()));
    assert_eq!(conn.user_version, 2);
    assert_eq!(
        conn.executed,
        vec!["CREATE TABLE Header (hash BLOB PRIMARY KEY, seq INTEGER);".to_string()]
    );
}

#[test]
fn reopening_executes_nothing() {
    let schema = two_revisions();
    let mut conn = Connection::fresh();
    schema.initialize(&mut conn).unwrap();
    let executed = conn.executed.clone();
    assert_eq!(schema.initialize(&mut conn), Ok(()));
    assert_eq!(conn.executed, executed);
    assert_eq!(conn.user_version, 2);
    assert_eq!(schema.plan(2), Ok(vec![]));
}

#[test]
fn older_store_is_migrated_forward() {
    let schema = two_revisions();
    let mut conn = Connection {
        user_version: 1,
        executed: vec!["earlier".to_string()],
    };
    assert_eq!(schema.initialize(&mut conn), Ok(()));
    assert_eq!(conn.user_version, 2);
    assert_eq!(
        conn.executed,
        vec![
            "earlier".to_string(),
            "".to_string(),
            "ALTER TABLE Header ADD COLUMN seq INTEGER;".to_string()
        ]
    );
}

#[test]
fn newer_store_is_refused() {
    let schema = two_revisions();
    let mut conn = Connection {
        user_version: 3,
        executed: vec!["earlier".to_string()],
    };
    assert_eq!(
        schema.initialize(&mut conn),
        Err(SchemaError::UnsupportedNewerSchema {
            stored: 3,
            latest: 2
        })
    );
    assert_eq!(conn.user_version, 3);
    assert_eq!(conn.executed, vec!["earlier".to_string()]);
    assert_eq!(
        schema.plan(u16::MAX),
        Err(SchemaError::UnsupportedNewerSchema {
            stored: u16::MAX,
            latest: 2
        })
    );
}

#[test]
fn migrations_execute_their_statements() {
    let migration = Migration {
        schema: "create".to_string(),
        forward: "alter".to_string(),
        backward: Some("undo".to_string()),
    };
    let mut conn = Connection::fresh();
    migration.initialize(&mut conn);
    migration.run(&mut conn);
    assert_eq!(conn.executed, vec!["create".to_string(), "alter".to_string()]);
    assert_eq!(conn.user_version, 0);
}

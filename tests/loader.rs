use mirror_sim::batch::{attach_statement, copy_statement, data_copy_batch, transaction_batch};
use mirror_sim::catalog::{select_kind, ObjectKind, SchemaObject};
use mirror_sim::loader::{LoadAction, LoadEvent, LoadFailure, LoadPhase, MirrorLoader, Target};

fn obj(name: &str, kind: ObjectKind, ddl: &str) -> SchemaObject {
    SchemaObject::new(name.to_string(), kind, ddl.to_string())
}

fn catalog() -> Vec<SchemaObject> {
    vec![
        obj("velocity", ObjectKind::Table, "CREATE TABLE velocity (id INTEGER, vx REAL, vy REAL)"),
        obj(
            "view_velocity_position",
            ObjectKind::View,
            "CREATE VIEW view_velocity_position AS SELECT * FROM velocity JOIN position USING (id)",
        ),
        obj("position", ObjectKind::Table, "CREATE TABLE position (id INTEGER, px REAL, py REAL)"),
    ]
}

fn sql_of(a: &LoadAction) -> (Target, String) {
    match a {
        LoadAction::Execute { target, sql } => (*target, sql.clone()),
        other => panic!("expected a statement batch, got {:?}", other),
    }
}

#[test]
fn select_kind_keeps_catalog_order() {
    let sel = select_kind(&catalog(), ObjectKind::Table);
    assert_eq!(sel.names, vec!["velocity".to_string(), "position".to_string()]);
    assert_eq!(sel.definitions.len(), 2);
    assert!(sel.definitions[1].starts_with("CREATE TABLE position"));
    let views = select_kind(&catalog(), ObjectKind::View);
    assert_eq!(views.names, vec!["view_velocity_position".to_string()]);
}

#[test]
fn select_kind_of_empty_catalog_is_empty() {
    let sel = select_kind(&Vec::new(), ObjectKind::View);
    assert!(sel.names.is_empty());
    assert!(sel.definitions.is_empty());
}

#[test]
fn transaction_batch_wraps_each_statement() {
    let b = transaction_batch(&vec!["CREATE TABLE a (x)".to_string(), "CREATE TABLE b (y)".to_string()]);
    assert_eq!(b, "BEGIN TRANSACTION;CREATE TABLE a (x);CREATE TABLE b (y);END TRANSACTION;");
}

#[test]
fn transaction_batch_of_nothing() {
    assert_eq!(transaction_batch(&Vec::new()), "BEGIN TRANSACTION;END TRANSACTION;");
}

#[test]
fn copy_statement_names_both_sides() {
    assert_eq!(copy_statement("position"), "INSERT INTO db.position SELECT * FROM main.position");
}

#[test]
fn data_copy_batch_copies_every_table() {
    let b = data_copy_batch(&vec!["a".to_string(), "b".to_string()]);
    assert_eq!(
        b,
        "BEGIN TRANSACTION;INSERT INTO db.a SELECT * FROM main.a;INSERT INTO db.b SELECT * FROM main.b;END TRANSACTION;"
    );
}

#[test]
fn attach_statement_text() {
    assert_eq!(attach_statement(), "ATTACH DATABASE ? as db");
}

#[test]
fn successful_load_runs_in_order() {
    let mut l = MirrorLoader::new();
    assert!(matches!(l.current_action(), LoadAction::Connect));
    let a = l.step(LoadEvent::Succeeded);
    assert!(matches!(a, LoadAction::ReadCatalog(ObjectKind::Table)));
    let a = l.step(LoadEvent::Catalog(catalog()));
    let (t, sql) = sql_of(&a);
    assert_eq!(t, Target::Mirror);
    assert_eq!(
        sql,
        "BEGIN TRANSACTION;CREATE TABLE velocity (id INTEGER, vx REAL, vy REAL);CREATE TABLE position (id INTEGER, px REAL, py REAL);END TRANSACTION;"
    );
    let a = l.step(LoadEvent::Succeeded);
    assert!(matches!(a, LoadAction::ReadCatalog(ObjectKind::View)));
    let a = l.step(LoadEvent::Catalog(catalog()));
    let (t, sql) = sql_of(&a);
    assert_eq!(t, Target::Mirror);
    assert_eq!(
        sql,
        "BEGIN TRANSACTION;CREATE VIEW view_velocity_position AS SELECT * FROM velocity JOIN position USING (id);END TRANSACTION;"
    );
    let a = l.step(LoadEvent::Succeeded);
    match a {
        LoadAction::AttachMirror { statement } => assert_eq!(statement, "ATTACH DATABASE ? as db"),
        other => panic!("expected attach, got {:?}", other),
    }
    let a = l.step(LoadEvent::Succeeded);
    let (t, sql) = sql_of(&a);
    assert_eq!(t, Target::Source);
    assert_eq!(
        sql,
        "BEGIN TRANSACTION;INSERT INTO db.velocity SELECT * FROM main.velocity;INSERT INTO db.position SELECT * FROM main.position;END TRANSACTION;"
    );
    let a = l.step(LoadEvent::Succeeded);
    assert!(matches!(a, LoadAction::Finish));
    assert_eq!(l.phase, LoadPhase::Loaded);
}

#[test]
fn loaded_never_reads_catalog_again() {
    let mut l = MirrorLoader::new();
    l.step(LoadEvent::Succeeded);
    l.step(LoadEvent::Catalog(catalog()));
    l.step(LoadEvent::Succeeded);
    l.step(LoadEvent::Catalog(catalog()));
    l.step(LoadEvent::Succeeded);
    l.step(LoadEvent::Succeeded);
    l.step(LoadEvent::Succeeded);
    assert_eq!(l.phase, LoadPhase::Loaded);
    for ev in [LoadEvent::Succeeded, LoadEvent::Failed, LoadEvent::Catalog(catalog())] {
        assert!(matches!(l.step(ev), LoadAction::Finish));
    }
}

#[test]
fn failed_table_batch_stops_the_load() {
    let mut l = MirrorLoader::new();
    l.step(LoadEvent::Succeeded);
    l.step(LoadEvent::Catalog(catalog()));
    let a = l.step(LoadEvent::Failed);
    assert!(matches!(a, LoadAction::Abort(LoadFailure::SchemaApply)));
    let a = l.step(LoadEvent::Succeeded);
    assert!(matches!(a, LoadAction::Abort(LoadFailure::SchemaApply)));
    assert_eq!(l.phase, LoadPhase::Failed(LoadFailure::SchemaApply));
}

#[test]
fn connection_failure() {
    let mut l = MirrorLoader::new();
    assert!(matches!(l.step(LoadEvent::Failed), LoadAction::Abort(LoadFailure::Connection)));
}

#[test]
fn catalog_failure() {
    let mut l = MirrorLoader::new();
    l.step(LoadEvent::Succeeded);
    assert!(matches!(l.step(LoadEvent::Failed), LoadAction::Abort(LoadFailure::SchemaRead)));
}

#[test]
fn copy_failure() {
    let mut l = MirrorLoader::new();
    l.step(LoadEvent::Succeeded);
    l.step(LoadEvent::Catalog(catalog()));
    l.step(LoadEvent::Succeeded);
    l.step(LoadEvent::Catalog(catalog()));
    l.step(LoadEvent::Succeeded);
    l.step(LoadEvent::Succeeded);
    assert!(matches!(l.step(LoadEvent::Failed), LoadAction::Abort(LoadFailure::DataCopy)));
}

#[test]
fn attach_failure_is_a_copy_failure() {
    let mut l = MirrorLoader::new();
    l.step(LoadEvent::Succeeded);
    l.step(LoadEvent::Catalog(catalog()));
    l.step(LoadEvent::Succeeded);
    l.step(LoadEvent::Catalog(catalog()));
    l.step(LoadEvent::Succeeded);
    assert!(matches!(l.step(LoadEvent::Failed), LoadAction::Abort(LoadFailure::DataCopy)));
}

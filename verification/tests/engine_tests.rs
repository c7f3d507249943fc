use onetimer::db::{
    DbEngine, EngineKind, MemoryEngine, Record, ALREADY_EXISTS_ERROR, DB_FILE, DB_MEMORY, DB_MYSQL,
    DB_PGSQL, DB_SQLITE, DELETE_ERROR, DO_NOT_EXISTS_ERROR, IO_ERROR, MEMORY_ERROR, MYSQL_ERROR,
    NOT_FOUND_ERROR, PGSQL_ERROR, SQLITE_ERROR, UNKNOWN_DB_TYPE_ERROR,
};

fn record(id: &str, data: &str, clicks: u32) -> Record {
    Record::from_parts(id.to_string(), data.to_string(), clicks, 100, 10).unwrap()
}

fn memory() -> MemoryEngine {
    MemoryEngine::new(EngineKind::Memory, &String::new()).unwrap()
}

#[test]
fn error_texts() {
    assert_eq!(SQLITE_ERROR, "sqlite error");
    assert_eq!(MYSQL_ERROR, "mysql error");
    assert_eq!(MEMORY_ERROR, "memory error");
    assert_eq!(IO_ERROR, "io error");
    assert_eq!(PGSQL_ERROR, "pgsql error");
    assert_eq!(NOT_FOUND_ERROR, "not found");
    assert_eq!(UNKNOWN_DB_TYPE_ERROR, "unknown db kind");
    assert_eq!(ALREADY_EXISTS_ERROR, "already exists");
    assert_eq!(DO_NOT_EXISTS_ERROR, "do not exists");
    assert_eq!(DELETE_ERROR, "delete error");
}

#[test]
fn kinds_by_name() {
    assert_eq!(EngineKind::parse("sqlite"), Ok(EngineKind::Sqlite));
    assert_eq!(EngineKind::parse("memory"), Ok(EngineKind::Memory));
    assert_eq!(EngineKind::parse("file"), Ok(EngineKind::File));
    assert_eq!(EngineKind::parse("mysql"), Ok(EngineKind::Mysql));
    assert_eq!(EngineKind::parse("postgresql"), Ok(EngineKind::Postgresql));
}

#[test]
fn names_of_no_kind() {
    assert_eq!(EngineKind::parse(""), Err("unknown db kind"));
    assert_eq!(EngineKind::parse("Memory"), Err("unknown db kind"));
    assert_eq!(EngineKind::parse("memory "), Err("unknown db kind"));
    assert_eq!(EngineKind::parse("postgres"), Err("unknown db kind"));
    assert_eq!(EngineKind::parse("redis"), Err("unknown db kind"));
}

#[test]
fn kind_names_parse_back() {
    let kinds = [
        EngineKind::Sqlite,
        EngineKind::Memory,
        EngineKind::File,
        EngineKind::Mysql,
        EngineKind::Postgresql,
    ];
    for kind in kinds {
        assert_eq!(EngineKind::parse(kind.name()), Ok(kind));
    }
    assert_eq!(EngineKind::Sqlite.name(), DB_SQLITE);
    assert_eq!(EngineKind::Memory.name(), DB_MEMORY);
    assert_eq!(EngineKind::File.name(), DB_FILE);
    assert_eq!(EngineKind::Mysql.name(), DB_MYSQL);
    assert_eq!(EngineKind::Postgresql.name(), DB_PGSQL);
    assert_eq!(DB_PGSQL, "postgresql");
}

#[test]
fn memory_engine_opens_as_memory_only() {
    assert!(MemoryEngine::new(EngineKind::Memory, &"anything".to_string()).is_ok());
    assert!(MemoryEngine::new_boxed(EngineKind::Memory, &String::new()).is_ok());
    for kind in [EngineKind::Sqlite, EngineKind::File, EngineKind::Mysql, EngineKind::Postgresql] {
        assert_eq!(MemoryEngine::new(kind, &String::new()).err(), Some("memory error"));
        assert_eq!(MemoryEngine::new_boxed(kind, &String::new()).err(), Some("memory error"));
    }
}

#[test]
fn memory_engine_prepare_succeeds() {
    let mut e = memory();
    assert_eq!(e.prepare(), Ok(()));
    assert_eq!(e.insert(&"a".to_string(), record("a", "x", 2)), Ok(()));
    assert_eq!(e.prepare(), Ok(()));
    assert_eq!(e.get(&"a".to_string()).unwrap().data(), "x");
}

#[test]
fn memory_engine_get_of_nothing() {
    let mut e = memory();
    assert_eq!(e.get(&"a".to_string()).err(), Some("not found"));
}

#[test]
fn memory_engine_insert_then_get() {
    let mut e = memory();
    assert_eq!(e.insert(&"a".to_string(), record("a", "x", 2)), Ok(()));
    let r = e.get(&"a".to_string()).unwrap();
    assert_eq!(r.id(), "a");
    assert_eq!(r.data(), "x");
    assert_eq!(r.max_clicks(), 2);
    assert_eq!(r.created(), 100);
    assert_eq!(r.lifetime(), 10);
    assert_eq!(e.get(&"b".to_string()).err(), Some("not found"));
    assert_eq!(e.get(&"a".to_string()).unwrap().max_clicks(), 2);
}

#[test]
fn memory_engine_insert_collision_keeps_the_first() {
    let mut e = memory();
    assert_eq!(e.insert(&"a".to_string(), record("a", "first", 2)), Ok(()));
    assert_eq!(e.insert(&"a".to_string(), record("a", "second", 5)), Err("already exists"));
    let r = e.get(&"a".to_string()).unwrap();
    assert_eq!(r.data(), "first");
    assert_eq!(r.max_clicks(), 2);
}

#[test]
fn memory_engine_update_changes_the_reads_only() {
    let mut e = memory();
    assert_eq!(e.insert(&"a".to_string(), record("a", "x", 5)), Ok(()));
    assert_eq!(e.insert(&"b".to_string(), record("b", "y", 5)), Ok(()));
    let change = Record::from_parts("a".to_string(), "other".to_string(), 4, 0, 0).unwrap();
    assert_eq!(e.update(change), Ok(()));
    let r = e.get(&"a".to_string()).unwrap();
    assert_eq!(r.data(), "x");
    assert_eq!(r.max_clicks(), 4);
    assert_eq!(r.created(), 100);
    assert_eq!(r.lifetime(), 10);
    assert_eq!(e.get(&"b".to_string()).unwrap().max_clicks(), 5);
}

#[test]
fn memory_engine_update_of_nothing() {
    let mut e = memory();
    assert_eq!(e.update(record("a", "x", 5)), Err("not found"));
    assert_eq!(e.get(&"a".to_string()).err(), Some("not found"));
}

#[test]
fn memory_engine_delete() {
    let mut e = memory();
    assert_eq!(e.insert(&"a".to_string(), record("a", "x", 5)), Ok(()));
    assert_eq!(e.insert(&"b".to_string(), record("b", "y", 5)), Ok(()));
    assert_eq!(e.delete(&"a".to_string()), Ok(()));
    assert_eq!(e.get(&"a".to_string()).err(), Some("not found"));
    assert_eq!(e.get(&"b".to_string()).unwrap().data(), "y");
    assert_eq!(e.insert(&"a".to_string(), record("a", "again", 1)), Ok(()));
    assert_eq!(e.get(&"a".to_string()).unwrap().data(), "again");
}

#[test]
fn memory_engine_delete_of_nothing() {
    let mut e = memory();
    assert_eq!(e.delete(&"a".to_string()), Err("memory error"));
    assert_eq!(e.insert(&"a".to_string(), record("a", "x", 5)), Ok(()));
    assert_eq!(e.delete(&"a".to_string()), Ok(()));
    assert_eq!(e.delete(&"a".to_string()), Err("memory error"));
}

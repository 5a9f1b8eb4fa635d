use sqlxum::config::{check_for_own_db, Config, ConfigError, ServeOpts, DEFAULT_PORT};
use sqlxum::executor::{ExecutionError, QueryRun, RunState, StreamEvent};
use sqlxum::row::RowResult;
use sqlxum::server::{delete_key, DeleteKey, QueryParams};
use sqlxum::value::GenericValue;

fn row_of(name: &str, v: i64) -> RowResult {
    let mut r = RowResult::new();
    r.insert(name.to_string(), GenericValue::Int(v));
    r
}

fn streaming(s: RunState) -> QueryRun {
    match s {
        RunState::Streaming(r) => r,
        other => panic!("not streaming: {:?}", other),
    }
}

#[test]
fn run_gathers_rows_in_order() {
    let run = QueryRun::start("select `a`");
    assert_eq!(run.query(), "select 'a'");
    let run = streaming(run.step(StreamEvent::Row(row_of("n", 1))));
    let run = streaming(run.step(StreamEvent::Row(row_of("n", 2))));
    assert_eq!(run.row_count(), 2);
    match run.step(StreamEvent::Finished("3ms".to_string())) {
        RunState::Done(o) => {
            assert_eq!(o.query, "select 'a'");
            assert_eq!(o.rows, vec![row_of("n", 1), row_of("n", 2)]);
            assert_eq!(o.elapsed, "3ms");
        }
        other => panic!("not done: {:?}", other),
    }
}

#[test]
fn unreachable_database_gives_connection_error() {
    let run = QueryRun::start("select 1");
    let e = ExecutionError::Connection("connection refused".to_string());
    match run.step(StreamEvent::Failed(e)) {
        RunState::Aborted(err) => {
            assert_eq!(err, ExecutionError::Connection("connection refused".to_string()));
            assert_eq!(err.message(), "connection refused");
        }
        other => panic!("not aborted: {:?}", other),
    }
}

#[test]
fn failure_mid_stream_discards_rows() {
    let run = QueryRun::start("select 1/(2-n) from s");
    let run = streaming(run.step(StreamEvent::Row(row_of("x", 1))));
    let e = ExecutionError::Query("division by zero".to_string());
    match run.step(StreamEvent::Failed(e)) {
        RunState::Aborted(err) => {
            assert_eq!(err, ExecutionError::Query("division by zero".to_string()))
        }
        other => panic!("not aborted: {:?}", other),
    }
}

#[test]
fn empty_result_is_an_outcome() {
    let run = QueryRun::start("select 1 where false");
    match run.step(StreamEvent::Finished("1ms".to_string())) {
        RunState::Done(o) => assert!(o.rows.is_empty()),
        other => panic!("not done: {:?}", other),
    }
}

#[test]
fn config_defaults() {
    let c = Config::from_values(Some("postgres://h/db".to_string()), None, None).unwrap();
    assert_eq!(c.database_url, "postgres://h/db");
    assert_eq!(c.port, DEFAULT_PORT);
    assert_eq!(c.port, 8080);
    assert_eq!(c.external_url, "http://localhost:8080");
    assert_eq!(c.api_url(), "http://localhost:8080/api");
}

#[test]
fn config_given_values() {
    let c = Config::from_values(
        Some("u".to_string()),
        Some("+9000".to_string()),
        Some("https://x.org/sqlxum".to_string()),
    )
    .unwrap();
    assert_eq!(c.port, 9000);
    assert_eq!(c.external_url, "https://x.org/sqlxum");
    assert_eq!(c.openapi_json_path(), "/sqlxum/api-docs/openapi.json");
    let c = Config::from_values(Some("u".to_string()), Some("65535".to_string()), None).unwrap();
    assert_eq!(c.external_url, "http://localhost:65535");
    assert_eq!(c.openapi_json_path(), "/api-docs/openapi.json");
}

#[test]
fn config_errors() {
    assert_eq!(
        Config::from_values(None, Some("80".to_string()), None).unwrap_err(),
        ConfigError::MissingDatabaseUrl
    );
    for bad in ["", "+", "65536", "-1", "8o", " 80"] {
        assert_eq!(
            Config::from_values(Some("u".to_string()), Some(bad.to_string()), None).unwrap_err(),
            ConfigError::InvalidPort
        );
    }
    assert_eq!(ConfigError::MissingDatabaseUrl.message(), "envvar 'DATABASE_URL' not set");
}

#[test]
fn own_db_must_be_test_database() {
    let c = Config::from_values(Some("postgres://h/sqlxum_test".to_string()), None, None).unwrap();
    let other = Config::from_values(Some("postgres://h/prod".to_string()), None, None).unwrap();
    assert_eq!(check_for_own_db(&ServeOpts { own_db: true }, &c), Ok(()));
    assert_eq!(check_for_own_db(&ServeOpts { own_db: false }, &other), Ok(()));
    assert_eq!(
        check_for_own_db(&ServeOpts { own_db: true }, &other),
        Err(ConfigError::NotOwnDatabase)
    );
}

#[test]
fn listing_query_is_adjusted() {
    let p = QueryParams { condition: None, limit: None };
    assert_eq!(p.adjust_query("select * from usr"), "select * from usr limit 5");
    let p = QueryParams { condition: Some("name = 'Foo'".to_string()), limit: Some(120) };
    assert_eq!(
        p.adjust_query("select * from usr"),
        "select * from usr where name = 'Foo' limit 120"
    );
}

#[test]
fn delete_key_prefers_identifier() {
    assert_eq!(delete_key(Some(7u32), Some("a@b".to_string())), Some(DeleteKey::Id(7)));
    assert_eq!(delete_key(None::<u32>, Some("a@b".to_string())), Some(DeleteKey::Email("a@b".to_string())));
    assert_eq!(delete_key(None::<u32>, None), None);
}

//! The single-pass select sequence: deferred construction errors, row
//! delivery, exhaustion, and terminal behaviour.

use sqlite::{CursorEvent, Error, Select, Value};

#[test]
fn deferred_error_is_yielded_once_then_nothing() {
    let mut select = Select::with_error(Error {
        code: Some(21),
        message: Some("bad statement".to_string()),
    });
    assert!(!select.wants_event());
    let first = select.advance(None);
    match first {
        Some(Err(error)) => {
            assert_eq!(error.code, Some(21));
            assert_eq!(error.message, Some("bad statement".to_string()));
        }
        _ => panic!("the deferred error was not yielded"),
    }
    assert!(!select.wants_event());
    assert!(select.advance(None).is_none());
    assert!(select.advance(None).is_none());
}

#[test]
fn rows_are_yielded_with_the_column_names() {
    let mut select = Select::with_columns(vec!["a".to_string(), "b".to_string()]);
    assert!(select.wants_event());
    let item = select.advance(Some(CursorEvent::Row(vec![
        Value::Integer(1),
        Value::Text("x".to_string()),
    ])));
    let row = item.expect("a row was produced").expect("not an error");
    assert_eq!(row.try_get::<i64, &str>("a"), Ok(1));
    assert_eq!(row.try_get::<String, &str>("b"), Ok("x".to_string()));
    assert_eq!(row.try_get::<i64, usize>(0), Ok(1));

    let item = select.advance(Some(CursorEvent::Row(vec![
        Value::Integer(2),
        Value::Null,
    ])));
    let row = item.expect("a second row was produced").expect("not an error");
    assert_eq!(row.try_get::<i64, &str>("a"), Ok(2));
    assert_eq!(row.try_get::<Option<String>, &str>("b"), Ok(None));
}

#[test]
fn exhaustion_is_terminal() {
    let mut select = Select::with_columns(vec!["a".to_string()]);
    assert!(select.wants_event());
    assert!(select.advance(Some(CursorEvent::End)).is_none());
    assert!(!select.wants_event());
    assert!(select.advance(None).is_none());
    assert!(select.advance(None).is_none());
}

#[test]
fn cursor_failure_is_yielded_then_terminal() {
    let mut select = Select::with_columns(vec!["a".to_string()]);
    let item = select.advance(Some(CursorEvent::Failed(Error {
        code: Some(5),
        message: None,
    })));
    match item {
        Some(Err(error)) => assert_eq!(error.code, Some(5)),
        _ => panic!("the failure was not yielded"),
    }
    assert!(!select.wants_event());
    assert!(select.advance(None).is_none());
}

#[test]
fn rows_outlive_the_sequence() {
    let mut select = Select::with_columns(vec!["a".to_string()]);
    let first = select
        .advance(Some(CursorEvent::Row(vec![Value::Integer(1)])))
        .unwrap()
        .unwrap();
    let second = select
        .advance(Some(CursorEvent::Row(vec![Value::Integer(2)])))
        .unwrap()
        .unwrap();
    assert!(select.advance(Some(CursorEvent::End)).is_none());
    assert_eq!(first.try_get::<i64, &str>("a"), Ok(1));
    assert_eq!(second.try_get::<i64, &str>("a"), Ok(2));
}

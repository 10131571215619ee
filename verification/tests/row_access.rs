//! Row addressing by name and by position, and the access-error policy.

use sqlite::{Row, Value};

fn sample_row() -> Row {
    Row::new(
        vec!["a".to_string(), "b".to_string(), "c".to_string()],
        vec![
            Value::Integer(1),
            Value::Text("x".to_string()),
            Value::Null,
        ],
    )
}

#[test]
fn name_and_position_yield_the_same_value() {
    let row = sample_row();
    assert_eq!(row.try_get::<i64, &str>("a"), row.try_get::<i64, usize>(0));
    assert_eq!(
        row.try_get::<String, &str>("b"),
        row.try_get::<String, usize>(1)
    );
    assert_eq!(
        row.try_get::<Option<i64>, &str>("c"),
        row.try_get::<Option<i64>, usize>(2)
    );
    assert_eq!(row.try_get::<i64, &str>("a"), Ok(1));
    assert_eq!(row.try_get::<String, &str>("b"), Ok("x".to_string()));
    assert_eq!(row.try_get::<Option<i64>, &str>("c"), Ok(None));
}

#[test]
fn unknown_name_yields_access_error_naming_it() {
    let row = sample_row();
    let error = row.try_get::<i64, &str>("nonexistent_column").unwrap_err();
    assert_eq!(error.code, None);
    assert_eq!(
        error.message,
        Some("column \"nonexistent_column\" could not be read".to_string())
    );
}

#[test]
fn mismatched_tag_yields_access_error_naming_the_column() {
    let row = sample_row();
    let error = row.try_get::<i64, &str>("b").unwrap_err();
    assert_eq!(error.code, None);
    assert_eq!(
        error.message,
        Some("column \"b\" could not be read".to_string())
    );
}

#[test]
fn out_of_range_position_yields_access_error_in_decimal() {
    let row = sample_row();
    let error = row.try_get::<i64, usize>(17).unwrap_err();
    assert_eq!(error.code, None);
    assert_eq!(
        error.message,
        Some("column 17 could not be read".to_string())
    );
}

#[test]
fn infallible_get_returns_the_value() {
    let row = sample_row();
    assert_eq!(row.get::<i64, &str>("a"), 1);
    assert_eq!(row.get::<String, usize>(1), "x".to_string());
}

#[test]
fn duplicate_names_resolve_to_the_last_position() {
    let row = Row::new(
        vec!["a".to_string(), "a".to_string()],
        vec![Value::Integer(1), Value::Integer(2)],
    );
    assert_eq!(row.try_get::<i64, &str>("a"), Ok(2));
}

#[test]
fn non_ascii_names_resolve() {
    let row = Row::new(vec!["zähler".to_string()], vec![Value::Integer(9)]);
    assert_eq!(row.try_get::<i64, &str>("zähler"), Ok(9));
    assert_eq!(
        row.try_get::<i64, &str>("zahler").unwrap_err().message,
        Some("column \"zahler\" could not be read".to_string())
    );
}

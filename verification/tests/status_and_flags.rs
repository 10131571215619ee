//! Status-code translation, callback replies, open flags, and the
//! C-string text preparation.

use sqlite::{
    busy_reply, decimal_string, iterate_status_to_result, nul_terminate, row_callback_reply,
    status_to_result, str_eq, Error, OpenFlags,
};

#[test]
fn success_code_is_ok() {
    assert_eq!(status_to_result(0, None), Ok(()));
}

#[test]
fn failure_code_without_engine_report_carries_the_code() {
    assert_eq!(
        status_to_result(5, None),
        Err(Error {
            code: Some(5),
            message: None,
        })
    );
}

#[test]
fn failure_code_with_engine_report_passes_it_through() {
    let reported = Error {
        code: Some(1),
        message: Some("no such table".to_string()),
    };
    assert_eq!(status_to_result(1, Some(reported.clone())), Err(reported));
}

#[test]
fn callback_stop_is_success_not_error() {
    assert_eq!(iterate_status_to_result(4, true, None), Ok(()));
}

#[test]
fn abort_without_callback_stop_is_an_error() {
    assert_eq!(
        iterate_status_to_result(4, false, None),
        Err(Error {
            code: Some(4),
            message: None,
        })
    );
}

#[test]
fn iterate_success_code_is_ok() {
    assert_eq!(iterate_status_to_result(0, false, None), Ok(()));
}

#[test]
fn busy_reply_translates_the_retry_decision() {
    assert_eq!(busy_reply(true), 1);
    assert_eq!(busy_reply(false), 0);
}

#[test]
fn row_callback_reply_translates_the_proceed_decision() {
    assert_eq!(row_callback_reply(true), 0);
    assert_eq!(row_callback_reply(false), 1);
}

#[test]
fn flags_start_empty_and_accumulate() {
    assert_eq!(OpenFlags::new().as_raw(), 0);
    assert_eq!(OpenFlags::new().set_read_only().as_raw(), 0x1);
    assert_eq!(OpenFlags::new().set_read_write().as_raw(), 0x2);
    assert_eq!(OpenFlags::new().set_create().as_raw(), 0x4);
    assert_eq!(OpenFlags::new().set_no_mutex().as_raw(), 0x8000);
    assert_eq!(OpenFlags::new().set_full_mutex().as_raw(), 0x10000);
    assert_eq!(OpenFlags::new().set_create().set_read_write().as_raw(), 0x6);
    assert_eq!(
        OpenFlags::new().set_read_only().set_read_only().as_raw(),
        0x1
    );
}

#[test]
fn nul_termination_appends_exactly_one_terminator() {
    assert_eq!(nul_terminate("abc"), Ok(vec![97, 98, 99, 0]));
    assert_eq!(nul_terminate(""), Ok(vec![0]));
}

#[test]
fn embedded_terminator_is_rejected() {
    let error = nul_terminate("a\0b").unwrap_err();
    assert_eq!(error.code, None);
    assert_eq!(
        error.message,
        Some("string contains an embedded nul".to_string())
    );
}

#[test]
fn decimal_rendering_is_exact() {
    assert_eq!(decimal_string(0), "0");
    assert_eq!(decimal_string(9), "9");
    assert_eq!(decimal_string(10), "10");
    assert_eq!(decimal_string(90217), "90217");
}

#[test]
fn text_equality_follows_the_characters() {
    assert!(str_eq("", ""));
    assert!(str_eq("abc", "abc"));
    assert!(!str_eq("abc", "abd"));
    assert!(!str_eq("abc", "abcd"));
    assert!(str_eq("héllo", "héllo"));
    assert!(!str_eq("héllo", "hello"));
}

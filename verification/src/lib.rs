//! A typed, memory-safe layer over an embedded SQL engine.
//!
//! The engine itself is reached over a C calling convention and is driven by
//! an unverified shell around this crate. Everything that can be stated and
//! checked as plain logic lives here: open-flag composition, status-code
//! translation, NUL-terminated text preparation, the dynamically typed value
//! model with its typed extraction contract, row addressing by name or
//! position, and the single-pass select sequence.

mod error;
mod flags;
mod row;
mod select;
mod status;
mod text;
mod value;

pub use error::Error;
pub use error::column_error;
pub use error::column_error_message;
pub use error::is_column_error;
pub use flags::OpenFlags;
pub use row::ColumnIndex;
pub use row::Row;
pub use row::spec_lookup;
pub use row::spec_try_get;
pub use row::lemma_lookup_distinct;
pub use row::lemma_name_position_round_trip;
pub use select::CursorEvent;
pub use select::Select;
pub use select::SelectPhase;
pub use select::is_terminal_event;
pub use select::lemma_done_is_terminal;
pub use select::lemma_single_pass;
pub use select::spec_phase_after;
pub use select::spec_run;
pub use select::spec_yield;
pub use status::STATUS_ABORT;
pub use status::STATUS_OK;
pub use status::busy_reply;
pub use status::iterate_status_to_result;
pub use status::row_callback_reply;
pub use status::spec_native_error;
pub use status::status_to_result;
pub use text::decimal_string;
pub use text::has_nul;
pub use text::nul_terminate;
pub use text::spec_decimal;
pub use text::str_eq;
pub use flags::OPEN_CREATE;
pub use flags::OPEN_FULL_MUTEX;
pub use flags::OPEN_NO_MUTEX;
pub use flags::OPEN_READ_ONLY;
pub use flags::OPEN_READ_WRITE;
pub use value::FloatBits;
pub use value::Value;
pub use value::ValueInto;
pub use value::ValueModel;
pub use value::lemma_blob_extraction;
pub use value::lemma_float_extraction;
pub use value::lemma_identity_extraction;
pub use value::lemma_integer_extraction;
pub use value::lemma_optional_extraction;
pub use value::lemma_text_extraction;

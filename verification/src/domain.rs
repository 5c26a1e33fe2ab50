//! The value kinds the layer understands and the union that carries one value.

mod calendar;
mod data_type;
mod value_union;

pub use calendar::date_text;
pub use calendar::date_time_text;
pub use calendar::days_in_month;
pub use calendar::is_calendar_date;
pub use calendar::is_leap_year;
pub use calendar::is_short_plain_text;
pub use calendar::is_written_short;
pub use calendar::is_time_of_day;
pub use calendar::Date;
pub use calendar::DateTime;
pub use calendar::MAX_YEAR;
pub use calendar::MIN_YEAR;
pub use data_type::classification_is_consistent;
pub use data_type::classification_table;
pub use data_type::classified;
pub use data_type::DataType;
pub use value_union::F32Bits;
pub use value_union::F64Bits;
pub use value_union::ValueUnion;
pub use value_union::ValueView;
pub use value_union::constructed_value_has_its_kind;
pub use value_union::mismatch;
pub use value_union::narrowing_returns_what_was_put_in;
pub use value_union::narrowing_to_another_type_fails;
pub use value_union::built;
pub use value_union::narrowed;

//! What every call of the library's functions gives, and how calls relate.

pub mod answers;
pub mod files;
pub mod uploads;
pub mod values;

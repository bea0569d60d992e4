//! Date and time values written out as text.

pub mod iso;

//! A session that needs no radio: it keeps what is written and reads it back.

pub mod session;

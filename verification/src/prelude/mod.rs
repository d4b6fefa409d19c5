//! The host functions that the runtime itself provides.

pub mod native_bool_operator;

//! The value model of an embeddable Lisp-style scripting runtime, with the
//! binding layer through which host functions become callable values.
//!
//! Every executable function carries a contract over the mathematical view
//! of its arguments, and the laws that relate the functions to one another
//! are proved beside them.

pub mod number;
pub mod text;
pub mod value;
pub mod prelude;
pub mod eval47;

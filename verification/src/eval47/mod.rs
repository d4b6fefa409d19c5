//! What this runtime binds into the bytecode machine that can stand in for
//! the interpreter.

pub mod builtins;

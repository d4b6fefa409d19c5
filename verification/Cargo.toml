[package]
name = "lisp_value"
version = "0.1.0"
edition = "2021"
publish = false

[dependencies]
lazy_static = "=1.5.1"
pr47 = "=0.1.3"
sexpr_ir = "=0.7.2"
xjbutil = { version = "=0.4.7", default-features = false, features = ["makro", "std-ext", "unchecked"] }

[package]
name = "systemjs_transpiler"
version = "0.1.0"
edition = "2021"
publish = false

[dependencies]
oxc = { version = "=0.77.0", features = ["ast_visit", "codegen", "semantic", "transformer"] }
# Not used by this crate itself: oxc's transformer depends on it, and does not
# compile against its later 2.x releases. The line holds it to the release that
# oxc 0.77 was built with.
oxc-browserslist = "=2.0.10"

[package]
name = "rspack_plugin_javascript"
version = "0.1.0"
edition = "2021"
publish = false

[dependencies]
async-trait = "0.1"
regex = "1"
rustc-hash = "2"
swc_core = { version = "*", default-features = false, features = ["base", "common", "ecma_ast", "ecma_parser", "ecma_visit", "ecma_transforms"] }
swc_node_comments = "*"
tracing = "0.1"

[package]
name = "js_processor"
version = "0.1.0"
edition = "2021"
publish = false

[dependencies]
actix-web = "*"
anyhow = "*"
ssr_rs = "*"
swc_atoms = "*"
swc_common = "*"
swc_ecma_ast = "*"
swc_ecma_codegen = "*"
swc_ecma_parser = "*"
swc_ecma_transforms_base = "*"
swc_ecma_transforms_module = "*"
swc_ecma_transforms_react = "*"
swc_ecma_transforms_typescript = "*"

[package]
name = "hydra_spirv"
version = "0.1.0"
edition = "2021"
publish = false

[dependencies]
rspirv = "*"
spirv-cross2 = "*"
swc_atoms = "*"
swc_common = { version = "*", features = ["tty-emitter"] }
swc_ecma_ast = "*"
swc_ecma_parser = "*"

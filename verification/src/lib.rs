//! A compiler that lowers a restricted functional-chain dialect of the Hydra
//! live-coding grammar into a SPIR-V fragment-shader binary.
//!
//! The pipeline is: adapter AST ([`ast::Chain`]) -> typed IR graph
//! ([`node::IRNode`], built by [`builder::IRBuilder`]) -> SPIR-V words
//! (emitted by [`spirv_visitor::SpirvEmitter`] through [`spirv_context`]).
//! All operator arguments travel as the bit patterns of finite `f32` values,
//! so the compiler itself never performs floating-point arithmetic; the
//! emitted shader does.

pub mod ast;
pub mod builder;
pub mod hydra_effects;
pub mod hydra_sources;
pub mod node;
pub mod numeric;
pub mod spirv_api;
pub mod spirv_context;
pub mod spirv_helpers;
pub mod spirv_visitor;

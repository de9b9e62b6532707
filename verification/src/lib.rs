//! Core library of the Ovie compiler: lexing, diagnostics, intermediate
//! representations and build configuration.

pub mod ai_feedback;
pub mod ast;
pub mod branding;
pub mod build_config;
pub mod case_names;
pub mod cli;
pub mod cli_args;
pub mod codegen;
pub mod cross_target;
pub mod device_ops;
pub mod device_state;
pub mod error;
pub mod hardware;
pub mod hardware_safety;
pub mod hir;
pub mod interpreter;
pub mod hir_tree;
pub mod hir_builder;
pub mod hir_checks;
pub mod ir;
pub mod ir_machine;
pub mod lexer;
pub mod text;
pub mod text_map;

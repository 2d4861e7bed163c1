//! Verified core of a compiler for homomorphic-encryption processing units.

pub mod annotation;
pub mod bench;
pub mod compat;
pub mod eager;
pub mod erc7984;
pub mod html;
pub mod idmap;
pub mod ids;
pub mod ir;
pub mod layout;
pub mod locality;
pub mod multi_hpu;
pub mod pipeline_context;
pub mod pipeline_graph;
pub mod pipeline_lang;
pub mod shiftrot;
pub mod statistics;
pub mod strutil;
pub mod text;
pub mod translation;
pub mod vm_bytecode;
pub mod vm_config;

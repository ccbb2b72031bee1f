//! Call-graph diagrams of annotated contract source: classification of the
//! declared functions, resolution of their calls into a tree of nodes, and
//! flowchart markup for that tree.
pub mod calls;
pub mod classify;
pub mod contract_descriptor;
pub mod function_info;
pub mod hierarchy;
pub mod markdown;
pub mod md_api;
pub mod objects;
pub mod output_format;
pub mod sample;
pub mod scanner_pipeline;
pub mod shapes;
pub mod syntax;

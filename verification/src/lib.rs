//! Loading, validation and normalization of the declarative configuration
//! file that names the theme-managing integrations ("items") this tool
//! drives: where each item lives, which scheme systems it supports, and how
//! generated scripts are invoked through the configured shell template.

pub mod config;
pub mod laws;
pub mod load;
pub mod render;
pub mod scheme;
pub mod sys;
pub mod text;
pub mod toml_doc;

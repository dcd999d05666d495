pub mod text;
pub mod models;
pub mod advisory;
pub mod plan;
pub mod unicode;
pub mod matching;
pub mod time;
pub mod seed;
pub mod db;
pub mod registry;
pub mod queries;
pub mod mcp;
pub mod check;
pub mod extract;
pub mod rust_syntax;
pub mod workspace;
pub mod sync;
pub mod query;
pub mod cli;
pub mod typescript;
pub mod ts_syntax;

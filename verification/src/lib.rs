//! A SQL query rewriter that routes references to the virtual state-reader
//! view to the materialised physical shards, expanding caller-provided view
//! definitions along the way and reporting which logical schemas a rewrite
//! depended on.

pub mod text;
pub mod branches;
pub mod output;
pub mod resolver;
pub mod context;
pub mod sqlio;
pub mod model;
pub mod filters;
pub mod rewriter;
pub mod laws;
pub mod jsonio;
pub mod api;

pub use api::rewrite_sql;
pub use api::rewrite_sql_with_context;
pub use api::set_rewrite_context;
pub use context::RewriteContext;
pub use output::CacheHints;
pub use output::InternalStateReaderHintPayload;
pub use output::RewriteError;
pub use output::RewriteOutput;

//! Incremental ingestion of the Midgard history series, and the read
//! statements that serve them back.
//!
//! The library decides and composes; it reads no network and no store. The
//! ingestion side is a pass that is told what happened and says what to do
//! next (`populate_db`), the call that fetches a window of a series
//! (`midgard_api`), and the statements that insert what was fetched
//! (`db::insertions`). The read side turns the options of a request into one
//! statement with its bound values (`api`).

pub mod api;
pub mod db;
pub mod midgard_api;
pub mod models;
pub mod populate_db;
pub mod scheduler;
pub mod text;
pub mod utils;

//! The upstream client: where a series is fetched from, and what a reply
//! to a fetch amounts to.

pub mod handlers;
pub mod interface;

pub use handlers::Series;
pub use interface::{Interface, InterfaceError, Params, Reply};

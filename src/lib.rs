//! Registration orchestration: pairing identities with proxies, building the
//! requests each registration session sends, reading the answers, and
//! reporting the outcome of every task of a batch.

mod text;

pub mod availability;
pub mod batch;
pub mod endpoint;
pub mod pairing;
pub mod session;

pub use endpoint::get_url;

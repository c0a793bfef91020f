//! Call-site interception for tests.
//!
//! Production code wraps each non-deterministic operation in a [`Testable`]
//! tagged with a location identifier. Resolving it in production runs the
//! operation; resolving it against a [`MockRegistry`] returns the value
//! installed for that identifier instead, or a [`MissingMock`] error.
//!
//! [`posts`] holds the logic that reads post titles out of JSON responses.

mod registry;
mod wrapper;
pub mod posts;

pub use registry::{
    installed, law_later_entry_wins, law_one_install_serves_every_lookup, serves, MissingMock,
    MockRegistry,
};
pub use wrapper::Testable;

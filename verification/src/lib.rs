//! A threshold-based peer-approval engine.
//!
//! Accredited members admit new members and approve or reject submitted
//! content and assets by casting votes; an application resolves as soon as
//! the votes in one direction reach a quorum bounded by the number of
//! accredited members.

pub mod ballot;
pub mod engine;
pub mod error;
pub mod laws;
pub mod market;
pub mod owner;
pub mod records;
pub mod table;

pub use ballot::{effective_threshold, Ballot, Direction};
pub use engine::{Outcome, Review};
pub use error::StateError;
pub use market::MarketAbi;
pub use owner::Owner;
pub use records::{Asset, Content, InitialState, Reviewer};
pub use table::Table;

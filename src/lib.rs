//! A client library for a CI platform's REST API: request descriptors,
//! cursor-following pagination, continuation policies, and the aggregators
//! that fold paginated listings into repository groupings and run statistics.
//!
//! Everything that talks to the network lives outside this crate; the library
//! decides what to fetch, whether to go on, and what the fetched items add up to.

pub mod model;
pub mod text;
pub mod filter;
pub mod dates;
pub mod stats;
pub mod links;
pub mod requests;
pub mod paginate;
pub mod repos;
pub mod dispatch;
pub mod cli;
pub mod secrets;
pub mod report;

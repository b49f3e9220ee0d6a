//! The decisions of a client for Google Bigtable's query service.
//!
//! Queries are compiled by the server before they are run. A compiled query is known by a
//! token, which lives for a time that the server sets. This library keeps track of the tokens
//! of one client: which statement a token or a query text belongs to ([`cache`]), when a
//! statement is compiled ([`prepare`]) and when its plan is renewed in the background
//! ([`refresh`]), and how a query is run and recovers where the server has dropped its plan
//! ([`client`], [`execute`]). What holds of all of it together stands in [`laws`].
//!
//! Nothing here waits, sends or reads a clock. Each function takes what came of the last
//! action as plain values and says what to do next; the time is handed in as a number (see
//! [`time`]). Shared state is taken by `&mut`: whoever shares it holds its lock.

pub mod cache;
pub mod client;
pub mod error;
pub mod execute;
pub mod inference;
pub mod laws;
pub mod lru;
pub mod messages;
pub mod metadata;
pub mod plan;
pub mod prepare;
pub mod refresh;
pub mod rows;
pub mod sql;
pub mod statement;
pub mod table;
pub mod text;
pub mod time;

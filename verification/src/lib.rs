//! A service that keeps tasks and user accounts: its rules, apart from the network and the
//! database.
//!
//! A request is turned into a query (`store`), and what the database brings back into an answer
//! (`tasks`, `accounts`) or a failure (`error`). What the queries mean for the tables, and what
//! follows for clients, is stated in `laws`.
pub mod accounts;
pub mod encoding;
pub mod error;
pub mod json;
pub mod laws;
pub mod password;
pub mod routes;
pub mod rules;
pub mod sql;
pub mod store;
pub mod tasks;
pub mod text;

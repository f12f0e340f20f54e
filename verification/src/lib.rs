//! A multi-tenant application registry kept in an SQLite database.
//!
//! Users register apps. Each app has an owner, a set of operators that the
//! owner delegated, a set of subscribed users and a set of named brokers.
//! Every change to what belongs to an app is decided by the permission
//! oracle and carried out in the same transaction as the decision.

pub mod app_users;
pub mod apps;
pub mod brokers;
pub mod credential;
pub mod db;
pub mod error;
pub mod gated;
pub mod operators;
pub mod permission;
pub mod request;
pub mod requests;
pub mod rows;
pub mod sqlite;
pub mod table;
pub mod users;

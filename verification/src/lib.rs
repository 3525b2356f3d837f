//! Verified core of a ticket-purchasing client: cookie parsing, account
//! records built from the account-info response, ticket session set-up,
//! device identifiers, task bookkeeping types and the decisions the desktop
//! front end takes on them.
pub mod text;
pub mod config;
pub mod client;
pub mod external;
pub mod account;
pub mod taskmanager;
pub mod ticket;
pub mod frontend;
pub mod frame;

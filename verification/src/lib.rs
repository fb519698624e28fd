//! The store service of a distributed hash table node.
//!
//! A node keeps values in a store, answers searches from it, sends searches on to other nodes, and
//! gathers the results of the searches that it sent on. `service::KVStoreService::call` carries out
//! one command and says what is to be done: answer an api request, forward a command, or nothing.
//! What each command does is stated in `steps`. What comes of it, in terms of what goes in and out,
//! is proved in `outcomes`, what conversions keep in `forms`, and what follows for the service as a
//! whole in `laws`.
pub mod answer;
pub mod cache;
pub mod clock;
pub mod command;
pub mod error;
pub mod forms;
pub mod global;
pub mod keyval;
pub mod laws;
pub mod outcomes;
pub mod proto;
pub mod query;
pub mod reply;
pub mod rules;
pub mod service;
pub mod steps;

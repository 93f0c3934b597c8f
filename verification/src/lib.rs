//! Verified core of the cocktail catalogue backend: the records that the
//! GraphQL layers hand around, the rules on their inputs, and the plans of the
//! database writes, with the HTTP, SQL and logging plumbing kept outside.
#![allow(non_snake_case)]

pub mod text;
pub mod configuration;
pub mod ids;
pub mod clock;
pub mod utils;
pub mod schema;
pub mod database;
pub mod creation;
pub mod validators;
pub mod graphql;
pub mod catalogue;
pub mod server;

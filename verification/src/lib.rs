//! Order-management core for a small restaurant service: a relational store
//! seeded with menu items and tables, and verified repository and handler
//! logic for creating, fetching, listing and deleting food orders.
#![allow(unused_imports)]
use vstd::prelude::*;

pub mod db;
pub mod dbsetup;
pub mod handler;
pub mod laws;
pub mod model;
pub mod repository;
pub mod response;
mod rng;
pub mod text;

verus! {

/// Configuration for the service: the location of the relational store.
pub struct AppConfig {
    pub db_filename: String,
}

impl Default for AppConfig {
    /// The fixed fallback used when no configuration is supplied.
    fn default() -> (c: Self)
        ensures
            c.db_filename@ == "restaurant.db"@,
    {
        AppConfig { db_filename: "restaurant.db".to_owned() }
    }
}

} // verus!

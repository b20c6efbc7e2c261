//! What sits between the domain and the relational store.

pub mod db;
pub mod repositories;

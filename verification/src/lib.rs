//! Session and cache core for a read-only cloud-storage gateway.
//!
//! The crate keeps one authenticated session to the upstream storage
//! provider available to concurrent readers, schedules its refresh before
//! expiry, and feeds request handlers from TTL-expiring cache tiers that
//! are populated as a side effect of normalizing upstream items.

pub mod auth;
pub mod cache;
pub mod config;
pub mod item;
pub mod model;
pub mod registry;
pub mod scheduler;
pub mod strutil;
pub mod thumb;
pub mod token;
pub mod web;

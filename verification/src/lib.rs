//! Core state engine for a terminal dashboard that polls a clustered data
//! store, computes per-index write rates, and lets an operator sort, filter,
//! exclude and inspect indices without blocking the display.

pub mod actions;
pub mod app;
pub mod details;
pub mod es_details;
pub mod es_types;
pub mod filter;
pub mod input;
pub mod models;
pub mod rates;
pub mod sort;
pub mod stats;
pub mod text;
pub mod view_types;

//! Query parameterisation and reply decisions for a small content/to-do HTTP API
//! backed by a relational store.
//!
//! The store itself is reached by the application around this library; here every
//! request becomes a [`query::Statement`] (SQL text plus bound values), and every
//! store outcome becomes a [`reply::Reply`]. The ghost model in [`tables`] gives
//! each statement its meaning over the tables, and [`laws`] proves what clients
//! may rely on.
pub mod laws;
pub mod query;
pub mod reply;
pub mod tables;

//! A small record-keeping library: a domain model for records with
//! server-assigned ids and unique names, a closed error taxonomy with its
//! HTTP response mapping, a repository capability contract with a verified
//! in-memory implementation, and the request-handling logic for the five
//! CRUD endpoints.

pub mod api;
pub mod config;
pub mod handler;
pub mod model;
pub mod repository;
pub mod text;

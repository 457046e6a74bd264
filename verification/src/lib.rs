//! A three-layer CRUD backend for a student resource, with verified
//! validation, storage and error-translation logic.
//!
//! The crate is split along the layers of the system:
//!
//! - [`domain`] holds the record types and their mathematical models;
//! - [`validation`] enforces the field rules and collects violations;
//! - [`error`] is the closed union of error kinds threaded through the
//!   layers;
//! - [`store`] is the persistence interface, with a verified in-memory
//!   engine and the laws of the row model;
//! - [`service`] validates and orchestrates before delegating to a
//!   store;
//! - [`response`] and [`handler`] shape every outcome into a
//!   transport-level reply, exactly once.
//!
//! Errors are raised once, carried unmodified through the layers, and
//! translated into a status and body only at the handler; the
//! contracts of each layer state exactly that protocol.

pub mod domain;
pub mod validation;
pub mod error;
pub mod response;
pub mod store;
pub mod service;
pub mod handler;

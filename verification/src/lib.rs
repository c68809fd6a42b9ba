//! Reconciliation engine for the `Document` custom resource: the finalizer
//! state machine, the apply and cleanup handlers, the error policy and the
//! metrics and diagnostics that every reconcile updates.

pub mod document;
pub mod error;
pub mod request;
pub mod telemetry;
pub mod reconciler;
pub mod metrics;
pub mod diagnostics;
pub mod environment;
pub mod controller;
pub mod cluster;

//! Adapter between a payment-orchestration core and the Forte payment gateway:
//! request building, status reconciliation and response mapping, each with a
//! verified contract.
pub mod forte;
pub mod metadata;
pub mod transformers;
pub mod types;

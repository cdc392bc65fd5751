//! Verifiable receipts for trading events: the receipt model and its integrity
//! hash chain, the policy evaluation that judges collected evidence, the
//! consistency check of recorded proofs, and the orchestration that turns a
//! submitted claim into a terminal receipt.

pub mod adapters;
pub mod engine;
pub mod hashing;
pub mod json;
pub mod models;
pub mod order;
pub mod pipeline;
pub mod policy;
pub mod prover;
pub mod offchain;
pub mod text;
pub mod tools;
pub mod workloads;

pub use engine::ReceiptEngine;
pub use models::{ClaimType, NonProvableReason, ProofRequest, ReceiptStatus, Venue, ZKReceipt};
pub use prover::Sp1MvpProver;

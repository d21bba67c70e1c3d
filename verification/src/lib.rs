//! Core decision logic of the Grove coordinator: the vocabulary of beads, runs and
//! sessions, their durable text encodings, file-reservation conflict rules, dispatch
//! eligibility, execution policy, reaction rules and playbook curation.

pub mod types;
pub mod text;
pub mod codec;
pub mod policy;
pub mod reservation;
pub mod bead;
pub mod eligibility;
pub mod records;
pub mod shutdown;
pub mod dispatch;
pub mod coordinator;
pub mod lifecycle;
pub mod reactions;
pub mod scheduler;
pub mod ids;
pub mod playbook;
pub mod runtime;
pub mod metrics;
pub mod inspect;
pub mod mirror;
pub mod rows;
pub mod archive;
pub mod lease;
pub mod blocked;

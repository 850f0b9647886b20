//! Scheduling core of a distributed proving service: the task contexts that
//! name every file of a proving job, the pipeline of stage tasks with its
//! proof store, the worker registry with its event-driven scheduler, and the
//! polling protocol that request handlers use to wait for proofs.

pub mod args;
pub mod contexts;
pub mod messages;
pub mod pipeline;
pub mod polling;
pub mod proof_store;
pub mod prover_service;
pub mod scheduler;
pub mod scheduler_service;
pub mod stage;
pub mod statedb;
pub mod strmap;
pub mod text;

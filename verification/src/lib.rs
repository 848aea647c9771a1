//! Batch transformation pipeline for media files.
//!
//! A batch applies an ordered list of named transformations to every media
//! file of a directory, by way of an external media tool. This library holds
//! what the batch decides: the names of the outputs, the jobs and their
//! units of progress, the order of the steps of each job and what is cleaned
//! up after it, the events that reach the consumer, and the arguments that
//! each transformation hands to the tool. Running the tool and touching the
//! file system is left to the caller, who reports back what happened.
//!
//! - `naming`, `ffutils`: output names and path escaping.
//! - `catalog`, `actions`: the transformations and the lookup from
//!   identifier to transformation.
//! - `job`: the job graph of a batch and its unit count.
//! - `chain`, `independent`, `preview`: one job under each topology, as a
//!   state machine; `chain_laws` states what holds of every chained job.
//! - `progress`, `channel`, `consumer`, `log`: progress accounting and the
//!   event stream from the jobs to their consumer.
//! - `scan`: which files of a directory are media files.
//! - `config`, `command`, `ai`: the shared configuration, argument lists,
//!   and the access to the advisory service.

pub mod actions;
pub mod ai;
pub mod catalog;
pub mod chain;
pub mod chain_laws;
pub mod channel;
pub mod command;
pub mod config;
pub mod consumer;
pub mod ffutils;
pub mod independent;
pub mod job;
pub mod log;
pub mod naming;
pub mod preview;
pub mod progress;
pub mod scan;

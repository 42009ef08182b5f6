//! Orchestration logic for deploying a multi-node testnet: the stage
//! sequencing of the deployment pipeline, the per-stage extra-vars
//! configuration documents handed to the configuration-management runner,
//! the codebase-variant resolution that decides artifact URLs and whether a
//! build stage runs, and the private-node sub-pipeline.
//!
//! All outside work (provisioning, playbook runs, SSH polling) is performed
//! by a driver that executes the actions these state machines plan.

pub mod codebase;
pub mod deploy;
pub mod error;
pub mod extra_vars;
pub mod inventory;
pub mod pipeline;
pub mod private_nodes;
pub mod text;

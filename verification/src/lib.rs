//! The control plane of a remote macOS build service, verified.
//!
//! Users submit jobs; an orchestrator stores them, hands each to exactly
//! one worker, and fans the live log out to the watchers; workers run the
//! jobs in a pool of pre-warmed VMs. This crate holds the rules of that
//! system as functions on plain values, each with a contract, and the laws
//! that hold of every sequence of requests. The network, the hypervisor
//! and the clock are left to the program around it.
//!
//! The orchestrator's side: [`models`] and [`error`] define the records;
//! [`job_store`] keeps the jobs and [`job_laws`] states what no sequence of
//! requests can break; [`log_hub`] fans log lines out, with its laws in
//! [`log_laws`]; [`registry`] keeps workers and artifacts; [`state`] ties
//! them together and [`routes`] are the handlers of the API, with [`auth`],
//! [`crypto`], [`rate_limit`], [`urls`] and [`config`] beside them.
//!
//! The worker's side: [`vm_pool`] with [`pool_laws`] and [`pool_init`],
//! [`executor`] and [`execution`] for the run of one job, [`worker_loop`]
//! for the control loop, [`worker_config`] and [`clients`].
//!
//! The client's side: [`cli`]. Shared by all: [`ids`], [`clock`], [`text`],
//! [`billing`] and [`api`].

pub mod api;
pub mod auth;
pub mod billing;
pub mod cli;
pub mod clients;
pub mod clock;
pub mod config;
pub mod crypto;
pub mod error;
pub mod execution;
pub mod executor;
pub mod ids;
pub mod job_laws;
pub mod job_store;
pub mod log_hub;
pub mod log_laws;
pub mod models;
pub mod pool_init;
pub mod pool_laws;
pub mod rate_limit;
pub mod registry;
pub mod routes;
pub mod state;
pub mod text;
pub mod urls;
pub mod vm_pool;
pub mod worker_config;
pub mod worker_loop;

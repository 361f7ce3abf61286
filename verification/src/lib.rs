//! Authority over model permits: who may reserve, claim and bill a provider
//! request, and what a worker that holds a permit may ask of its host.
//!
//! Every decision is a function from plain values to plain values. The host
//! reads its store, hands the readings in, and performs what comes back.
pub mod authority;
pub mod boundary;
pub mod change_laws;
pub mod context;
pub mod control;
pub mod cpu_jobs;
pub mod dispatch;
pub mod errors;
pub mod events;
pub mod launch;
pub mod launch_laws;
pub mod laws;
pub mod ledger;
pub mod model;
pub mod operation_laws;
pub mod outcome_laws;
pub mod outside;
pub mod permit_laws;
pub mod run_laws;
pub mod service_laws;
pub mod session;
pub mod session_laws;
pub mod text;
pub mod upload;
pub mod wait;
pub mod web;
pub mod web_laws;
pub mod work_laws;

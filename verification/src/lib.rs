//! Core logic of the service-monitoring backend: checker configuration,
//! check evaluation, system health, the task registry of the scheduler, and
//! the rules by which the HTTP routes merge updates and build replies.

pub mod json;
pub mod text;
pub mod models;
pub mod checkers;
pub mod routes;
pub mod scheduler;
pub mod ws;

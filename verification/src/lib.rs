//! Self-extracting launcher core: the trailer protocol appended to the
//! running executable, the deterministic staging directory, the planning of
//! materialized files, and the lifecycle state machine that sequences
//! staging, materialization, launch and cleanup.

pub mod decimal;
pub mod diag;
pub mod lifecycle;
pub mod materialize;
pub mod staging;
pub mod trailer;

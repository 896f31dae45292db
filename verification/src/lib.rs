//! A staged content-build pipeline.
//!
//! A pipeline turns a tree of source documents into rendered output
//! files through a fixed sequence of phases: acquire configuration,
//! load content, transform content, assemble output context, write
//! files.  The heart of the crate is the scheduler that drives them:
//! phases run strictly in order; any unit of work may spawn background
//! tasks that outlive its phase; and every mutation those tasks produce
//! is applied to the shared state at a race-free barrier between
//! phases, with exact accounting of every task spawned.
//!
//! The scheduler's parts — the pool sizing, the command queue, the
//! deferred-task coordinator, the dependency planner, the driver and
//! its barrier decisions — are verified down to their contracts.  The
//! collaborators around them (document parsing, front-matter
//! extraction, template planning) are verified where they compute, and
//! lean on their outside crates where they do not.

pub mod app;
pub mod barrier;
pub mod command;
pub mod deferred;
pub mod errors;
pub mod executor;
pub mod file;
pub mod front_matter;
pub mod matterparser;
pub mod phase;
pub mod pool;
pub mod processor;
pub mod store;
pub mod strings;
pub mod toml_ext;
pub mod traits;

//! Configuration lifecycle engine for a proxy-management application.
//!
//! The crate centers on four pieces:
//! - [`draft::Draft`], a transactional snapshot cell: one committed value,
//!   at most one in-progress draft, commits are atomic;
//! - the profile chain engine in [`enhance`], which folds an ordered chain
//!   of merge patches and script steps over a base document and records
//!   provenance and per-step diagnostics;
//! - the registry in [`config`], four independent snapshot cells holding
//!   the application's configuration domains;
//! - the validation coordinator in [`validate`], a state machine that
//!   decides fallback and notification from generation and engine results.

pub mod config;
pub mod doc;
pub mod draft;
pub mod enhance;
pub mod merge;
pub mod profiles;
pub mod render;
pub mod runtime;
pub mod settings;
pub mod sys_info;
pub mod validate;

//! An application core: an event-driven state-update loop over pages of
//! local UI state, served by a data-access layer that lazily connects to a
//! persistent project store.
//!
//! The dispatch loop ([`dispatch`]) applies user actions and task
//! completions one at a time and says which asynchronous work to schedule.
//! The data-access service ([`service`]) owns an optional storage handle
//! and fails predictably before it is ready. The storage interface
//! ([`database`]) states the exact semantics of every operation over the
//! store model ([`store_model`]); the in-memory engine ([`memory`])
//! implements it. Pages ([`oc_generator`], [`project_manager`],
//! [`new_project`]) hold only local state and perform no input or output.

pub mod config;
pub mod database;
pub mod dispatch;
pub mod entities;
pub mod laws;
pub mod memory;
pub mod new_project;
pub mod oc_generator;
pub mod pages;
pub mod project_manager;
pub mod service;
pub mod store_model;
pub mod toasts;

pub use entities::{Feature, Project, ProjectJoin, ProjectTag, StorageError, Tag};

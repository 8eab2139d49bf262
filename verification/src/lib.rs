//! A small self-hosted git repository viewer: relative-time phrasing,
//! an in-memory cache, configuration, repository bookkeeping and the
//! routing decisions of its HTTP front end.

pub mod access;
pub mod cache;
pub mod config;
pub mod error;
pub mod humanize;
pub mod repo;
pub mod services;
pub mod sources;
pub mod state;
pub mod templates;
pub mod text;
pub mod views;

pub use access::Access;
pub use cache::{Cache, MemCache};
pub use config::Config;
pub use error::{Compat, Error};
pub use humanize::{get_current_time, Humanize, TimePeriod};
pub use repo::{CommitDetails, RepoDetails, RepoInfo};
pub use services::{Parser, Static};
pub use state::InnerState;
pub use templates::TemplateEngine;

//! Usage tracking for AI tooling providers: a uniform usage model, the
//! normalization of provider responses into it, a per-provider state cache
//! and the refresh decisions that keep the cache current.

pub mod cache;
pub mod error;
pub mod fixed;
pub mod kind;
pub mod kind_set;
pub mod menu;
pub mod metrics;
pub mod registry;
pub mod scheduler;
pub mod synthetic;
pub mod text;
pub mod theme;
pub mod time;
pub mod tray;
pub mod usage;

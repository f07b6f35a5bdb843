//! Verified core of a live-development daemon: port allocation, change
//! filtering, build orchestration, the asset manifest store, request
//! resolution for the static asset server, and the reload client set.

pub mod broadcaster;
pub mod css;
pub mod decimal;
pub mod manifest;
pub mod orchestrator;
pub mod paths;
pub mod port;
pub mod server;
pub mod watcher;

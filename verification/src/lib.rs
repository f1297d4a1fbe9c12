//! Verified core of an interactive terminal dashboard for managing a set of
//! named cluster-connection profiles: event dispatch, view-stack navigation,
//! list filtering, the confirmation dialog, the cloud-import drill-down state
//! machine, the bounded-concurrency connectivity prober, and the serialized
//! configuration-write discipline.
//!
//! Terminal drawing, file persistence, cluster probing and cloud CLI
//! invocations are external collaborators: the functions here compute every
//! decision those collaborators act on, over plain values handed in and out.

pub mod app_core;
pub mod cloud;
pub mod config;
pub mod dialog;
pub mod events;
pub mod import_path;
pub mod import_view;
pub mod list_view;
pub mod navigation;
pub mod prober;
pub mod render;
pub mod state;
pub mod status;
pub mod text;
pub mod view_stack;

//! A minimal, backend-agnostic metrics facade.
//!
//! Libraries declare counter handles without knowing which telemetry backend
//! will eventually collect them; the hosting process installs exactly one
//! concrete backend into a write-once handler registry. A handle may be used
//! (incremented) before any backend is registered: it binds to the backend on
//! its first use after registration, binds exactly once, and silently drops
//! increments while no backend is present.

pub mod handle;
pub mod laws;
pub mod registry;
pub mod table;
pub mod types;

pub use handle::CounterU64;
pub use registry::global_metrics_report;
pub use registry::register_global_metrics_handler;
pub use registry::HandlerRegistry;
pub use table::TableMetricsHandler;
pub use types::MetricsHandler;

//! Bootstrap helpers for long-running services: a layered logging
//! configuration with graceful fallback, and the decisions behind a small
//! always-on status listener served by a fixed-size worker pool.

pub mod text;
pub mod level;
pub mod options;
pub mod logger;
pub mod http;

pub use level::{str_to_levelfilter, Severity};
pub use options::Options;
pub use logger::{
    default_logger_config, resolve_logging, settle_sinks, ExternalLoad, LoggerPlan, LoggingChoice,
    SinkSpec, SinkTarget,
};
pub use http::{
    create_worker_pool, listener_settings, reply_for_read, settle_listener, ListenerSettings,
    STATUS_RESPONSE,
};

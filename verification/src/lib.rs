//! Category-aware routing of log records.
//!
//! A record carries a free-form category and a severity. The logger keeps one
//! registry entry per category, made of an optional severity threshold and the
//! handle of the sink that records of the category are sent to. It decides for
//! each record whether it passes the threshold in force for its category and,
//! if it does, which sink receives it.
pub mod config;
mod facade;
pub mod level;
pub mod lifecycle;
pub mod logger;
pub mod registry;
pub mod sink;

pub use config::Config;
pub use level::{Level, LevelFilter};
pub use lifecycle::{complete_registration, init_once, LoggerSlot};
pub use logger::OsLogger;
pub use sink::{Emission, SinkHandle};

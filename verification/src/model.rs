//! The records kept per user, and the reading they are made from.

pub mod config;
pub mod daily;
pub mod last;
pub mod time;
pub mod usage;

pub use config::Model as ConfigModel;
pub use daily::Model as DailyModel;
pub use last::Model as LastModel;
pub use usage::UsageReading;

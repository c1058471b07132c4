//! The engine and what it is built from.

pub mod china_unicom;
pub mod format;
pub mod option_t;
pub mod oxidebot_util;
pub mod task;
pub mod text;

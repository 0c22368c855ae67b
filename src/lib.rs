pub mod catalog;
pub mod config;
pub mod error;
pub mod lrc;
pub mod pool;
pub mod quality;
pub mod queue;
pub mod runner;
pub mod status;
pub mod template;
pub mod uri;

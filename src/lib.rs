//! A sliding-window admission controller: it records attempts and tells the
//! caller how long to wait before proceeding.

pub mod cli;
mod clock;
pub mod keeper;
pub mod laws;
pub mod response;
pub mod window;

pub use cli::Cli;
pub use keeper::{ConfigError, Keeper};
pub use response::delay_text;

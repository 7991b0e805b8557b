//! Argument resolution and start-up decisions for the Copa congestion
//! controller: raw flag values become a typed algorithm configuration and a
//! transport name, or a structured error.

pub mod config;
pub mod decimal;
pub mod delta;
pub mod delta_mode;
pub mod driver;
pub mod error;
pub mod laws;
pub mod text;
pub mod transport;

pub use config::{resolve, resolve_with, AlgConfig, ArgValues, RawArgs};
pub use decimal::parse_decimal_u32;
pub use delta::check_delta;
pub use delta_mode::DeltaMode;
pub use driver::{step, Action, Event, Stage};
pub use error::{ErrorKind, Field, ResolutionError};

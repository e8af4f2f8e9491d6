//! A fixed-rate congestion controller and the parameters that can be set on it while a
//! connection is up.
pub mod brutal_core;
pub mod control;
pub mod controller;
pub mod double;
pub mod laws;
pub mod registry;
pub mod registry_laws;
pub mod slots;
pub mod step_laws;
pub mod time;

pub use crate::brutal_core::{BrutalConfigCore, BrutalCore, WindowInputs};
pub use crate::control::{BrutalControl, ConfigError, CongestionParameter};
pub use crate::controller::{brutal_set_parameter_by_remote, Brutal, BrutalConfig};
pub use crate::double::Double;
pub use crate::registry::{Registry, RemoteAddr};
pub use crate::time::{Moment, Span};

//! Core logic of a host-driven simulation component.
//!
//! A simulation engine (the host) repeatedly invokes a single entry point
//! and exposes its context only through query flags and value getters.
//! This crate holds the verified part of such a component: the call-phase
//! dispatcher, the per-instance state registry, the tick-based history
//! storage, the value primitives and the error taxonomy.  Everything that
//! must talk to the host itself (foreign calls, logging, file handling)
//! lives outside the library and exchanges plain values with it.

pub mod dispatch;
pub mod error;
pub mod history;
pub mod host;
pub mod iteration_mode;
pub mod logging;
pub mod registry;
pub mod state;
pub mod trnsys_type;
pub mod value;

pub use dispatch::{entrance, finish_iterate, CallOutcome, HostFrame, PhaseFlags};
pub use error::{InputError, TrnSysError, TrnSysErrorHandler};
pub use history::{MemoryStorageProvider, StoreProvider};
pub use host::{HostCall, Severity};
pub use iteration_mode::IterationMode;
pub use registry::StateRegistry;
pub use state::TrnSysState;
pub use trnsys_type::TrnSysType;
pub use value::TrnSysValue;

//! Broadcast events of one type to a changing set of observers, each behind
//! its own bounded or unbounded channel and its own optional filter.

mod error;
mod events;
mod filter;
pub mod laws;
mod observable;
pub mod pharos;
mod text;
mod transport;

pub use error::{Error, ErrorKind};
pub use events::{Events, Subscription};
pub use filter::Filter;
pub use observable::{Channel, Observable, ObserveConfig, MAX_QUEUE_SIZE};
pub use crate::pharos::Pharos;

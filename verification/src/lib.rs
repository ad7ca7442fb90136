//! Interactive browser for version-tagged release artifacts of a remotely
//! hosted repository.
//!
//! The crate is organised around a single-threaded session controller:
//! `session::SessionState` owns every piece of mutable session data and
//! consumes a merged stream of key events and timer ticks.  Pattern matching
//! is delegated to a compiled-pattern engine (`pattern`) and list narrowing
//! to the filter functions in `filter`.  Background workers (terminal
//! polling, network fetches) communicate with the controller only through
//! plain request/result values, so all of their decision logic lives here as
//! verified functions.

pub mod args;
pub mod data;
pub mod filter;
pub mod finder;
pub mod pattern;
pub mod poller;
pub mod session;

//! NTFS junction points, as a verified core without I/O.
//!
//! A junction is a directory whose reparse data redirects path resolution to
//! another directory. This crate holds everything about junctions that can be
//! decided without touching the operating system: the byte layout of the
//! reparse data buffer, and the order and the parameters of the system calls
//! that create, inspect and remove a junction. The calls themselves are made
//! by the caller: every operation is a transition function that is handed the
//! outcome of the previous call and answers with the next call to make, or
//! with the result.
//!
//! A caller runs an operation like this, with a `perform` of its own that
//! makes the call that an action names and says what came of it:
//!
//! ```ignore
//! let mut state = Query::Idle;
//! let mut event = Event::Begin;
//! let found = loop {
//!     match junction_exists(state, event, PrivilegeMode::Minimal) {
//!         Step::Done(result) => break result,
//!         Step::Next { state: next, action } => {
//!             event = perform(action);
//!             state = next;
//!         }
//!     }
//! };
//! ```

pub mod buffer;
pub mod c;
pub mod cast;
pub mod error;
pub mod helpers;
pub mod host;
pub mod internals;
pub mod laws;
pub mod utf16;

pub use error::Error;
pub use host::{Action, Event, PrivilegeMode, Step};
pub use internals::{create, delete, get_target, junction_exists, Create, Delete, Query};

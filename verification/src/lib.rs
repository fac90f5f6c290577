//! NetMount's sidecar supervisor and the rules around it.
//!
//! The application launches two engines as child processes, its sidecars,
//! and watches over them. This library holds what is decided on the way,
//! with each decision stated as a contract:
//!
//! - [`registry`] is the table from the name of a sidecar to its process;
//!   [`sidecar`] registers and terminates sidecars by name.
//! - [`launch`] leads a launch from the check of the executable to the
//!   process; [`probe`] leads the look at the process after a grace period;
//!   [`startup`] leads the whole start of a sidecar through both.
//! - [`output`] and [`channel`] say how a line of output is echoed, logged
//!   and offered to the probe.
//! - [`group`] leads the calls that set up the process group and put a
//!   process into it.
//! - [`error`] names what can go wrong and which failures stop a start.
//!
//! Nothing here touches the file system, the clock or a pipe. Where work
//! alternates with such things, a value of this library says what to do
//! next and takes what came of it; the caller does it. Two things only the
//! library does itself: it sends the signal that terminates a sidecar, and
//! it draws the random credentials of a first start.
//!
//! The remaining modules hold the rules of the application around the
//! supervisor: [`autostart`], [`config`], [`diagnostics`] and [`export`],
//! [`locale`] and [`localized`], [`tray`] and [`utils`], with [`json`] and
//! [`text`] for the documents and texts they work on.

pub mod autostart;
pub mod channel;
pub mod config;
pub mod diagnostics;
pub mod error;
pub mod export;
pub mod group;
pub mod json;
pub mod launch;
pub mod locale;
pub mod localized;
pub mod output;
pub mod probe;
pub mod registry;
pub mod sidecar;
pub mod startup;
pub mod text;
pub mod tray;
pub mod utils;

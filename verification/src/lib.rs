//! Backend process supervision for the Alchemist desktop shell.
//!
//! The library models the native-side supervisor that launches the
//! application's companion backend process: resolving the backend entry
//! script's path for the current build mode, deciding the outcome of a
//! launch attempt, and draining the child's output streams line by line
//! until both close. All decision logic lives here, verified; the
//! asynchronous plumbing that performs the actual spawn and pipe reads
//! lives outside the library.

pub mod drain;
pub mod messages;
pub mod numerals;
pub mod opener;
pub mod paths;
pub mod supervisor;

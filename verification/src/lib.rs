//! Invoke an external Nix evaluator through a builder-pattern abstraction.
//!
//! A [`nix::CallOpts`](crate::nix::CallOpts) describes one evaluator
//! invocation: an input (an inline expression or a file), an optional
//! attribute selector and named string arguments.  The crate renders the
//! command line for that invocation, splits the captured output streams
//! into byte lines, and turns an observed process outcome into either a
//! decoded value or a structured [`error::BuildError`](crate::error::BuildError).
//! Spawning the process, draining its pipes and creating the temporary
//! GC-root directory are left to the (unverified) caller, which hands the
//! observed outcome back in as a plain value.

pub mod error;
pub mod lines;
pub mod nix;
pub mod trusted;

//! Core of a real-time renderer built around a single frame in flight:
//! the render-target description, the per-swapchain-image frame targets,
//! the command-recording protocol, the per-frame fence/semaphore handshake,
//! the one-shot geometry upload, and the ordered teardown of every object
//! the renderer owns.
//!
//! The crate is a pure model: every graphics object is addressed by a role
//! or an index, and every decision — what to record, what to wait on, what
//! to destroy and in which order — is a verified function from plain values
//! to plain values. A thin unverified shell maps the roles and indices to
//! real device handles and performs the calls this model requests.

pub mod command_manager;
pub mod errors;
pub mod geometry;
pub mod layout;
pub mod renderer;
pub mod target;

//! Programmatic front-end for a CMake-style configure-and-build workflow.
//!
//! The crate resolves named build configurations ("presets") from a
//! `CMakePresets.json` document, assembles the command lines for the
//! two-phase configure/build protocol, and exposes the whole execution
//! as a step-by-step state machine: the library decides, the caller
//! performs the file reads, directory creation and subprocess launches
//! and reports each outcome back as a [`protocol::Event`].

pub mod cmake;
pub mod cmd;
pub mod json;
pub mod protocol;

pub use cmake::CMakePreset;
pub use cmake::CMakePresets;
pub use cmd::Cmd;
pub use protocol::Action;
pub use protocol::BuildError;
pub use protocol::Event;
pub use protocol::Invocation;

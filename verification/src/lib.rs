//! Idle-detection and power-policy core of a desktop session daemon.
//!
//! The daemon samples the cursor position and workspace state once per
//! second.  From those samples this library derives an idle duration,
//! decides when a warning notification and a suspend action are due, and
//! maps the active workspace identifier to a CPU frequency-scaling preset.
//! All I/O (the queries and the fired actions) lives outside the library;
//! the functions here take the raw readings as plain values and return the
//! decision.

pub mod command;
pub mod machine;
pub mod policy;
pub mod trace;

pub use machine::Greenland;
pub use machine::IdleAction;
pub use policy::Preset;
pub use policy::select_preset;

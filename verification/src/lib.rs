//! The decision core of deskvrm, a desktop companion that shows avatar models.
//!
//! The process around this library samples the system cursor, listens to two
//! events of the user interface, and serves avatar model files over a loopback
//! HTTP endpoint. Everything it has to decide is decided here, on plain
//! values, and proved against the contracts below; the process only performs
//! what these functions tell it to and reports back what happened.
//!
//! * [`name`]: reduction of a caller-supplied name to one file name.
//! * [`staging`]: the names of the files that uploads are written to first.
//! * [`asset`]: the asset server's three operations as a step machine over
//!   file operations.
//! * [`directory`]: a model of the model directory, and what the asset server
//!   guarantees over it.
//! * [`bridge`]: the two user-interface events and the window operations they
//!   lead to.
//! * [`cursor`]: one tick of the cursor broadcaster.

pub mod asset;
pub mod bridge;
pub mod cursor;
pub mod directory;
pub mod name;
pub mod staging;

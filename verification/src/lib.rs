//! The decision-making core of a desktop note application's native commands.
//!
//! Each command of the application is a single request/response transaction
//! around at most one native dialog and one file write. The dialog and the
//! write are performed by the hosting shell; every decision in between (what
//! the dialog looks like, what a reply means, what is written where, and what
//! the front end is told) is taken here, on plain values, and verified.

pub mod dialog;
pub mod directory_picker;
pub mod error;
pub mod file_writer;
pub mod greeter;
pub mod location;
pub mod markdown_saver;

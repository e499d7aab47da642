//! The decisions and texts of the command-line commands.
//!
//! The application reads the working directory, git and the database, and
//! prints; these functions take what it found and decide what to do and say.

pub mod backup;
pub mod commit;
pub mod intent;
pub mod memory;
pub mod status;
pub mod sync;
pub mod validate;

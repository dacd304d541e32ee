//! Mount-point junctions of NTFS: the reparse data that describes one, built
//! and read back as bytes, and the decisions of the four junction operations.

pub mod codec;
pub mod cursor;
pub mod error;
pub mod laws;
pub mod layout;
pub mod operations;
pub mod path;

pub use error::JunctionError;
pub use operations::{create, delete, get_target, junction_exists, Entry};

//! Address resolution for Mach-O images: locating the thin image inside a
//! universal container, reading its load commands into a symbol index and a
//! debug map, and translating addresses of a linked image back into the
//! compiled objects it was linked from.

pub mod archive_path;
pub mod bundle;
pub mod container;
pub mod index;
pub mod object;
pub mod reader;
pub mod resolve;
pub mod search;

//! A read-only accessor over a JAR archive: open it, list the names of its
//! members, and read the bytes of one member by its name.

pub mod accessor;
pub mod laws;
pub mod model;
pub mod zip_reader;

pub use crate::accessor::Jar;
pub use crate::accessor::OPEN_ERROR;
pub use crate::accessor::READ_ERROR;

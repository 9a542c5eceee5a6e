//! Verified core of `bolt`, a tool that recreates the resized versions of
//! images stored for documents of a database: file names, paths, resize
//! commands, collected image references, database updates and commands.

pub mod strings;
pub mod paths;
pub mod md5_hasher;
pub mod versions;
pub mod jobs;
pub mod store_images;
pub mod updates;
pub mod plans;
pub mod cli;

//! Storage: the recording directory layout and the rows of the recording library.
pub mod db;
pub mod files;

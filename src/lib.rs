//! Batch edits of the column layout of comma-separated tables: inserting a
//! column at a position, or moving an existing column to a position.
pub mod codec;
pub mod laws;
pub mod layout;
pub mod locate;
pub mod migration;
pub mod table;

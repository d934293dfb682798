//! A file-identity and schema-versioning gate in front of an embedded SQLite
//! store: opening a path classifies the file there (new, ours, ours at
//! another schema version, or foreign), initializes a new file atomically,
//! and exposes an explicit version comparison and upgrade step.

pub mod db;
mod engine;

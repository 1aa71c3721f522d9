//! Data model and wire-format codec for task-management records.
//!
//! The crate defines the entities exchanged with a task-tracking backend
//! (`Task`, `TaskId`, `Bookmark`, the `Status`/`Priority`/`Recurrence`
//! enumerations) together with the exact textual encoding and decoding
//! rules for them: a fixed compact timestamp format, strict enumeration
//! forms, and a field-presence contract under which absent optional
//! attributes are omitted from the payload entirely.

pub mod text;
pub mod timestamp;
pub mod model;
pub mod ids;
pub mod uris;
pub mod payload;

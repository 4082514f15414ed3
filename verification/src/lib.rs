//! Streaming conversion of a catalogue of music releases, read as XML tokens,
//! into columnar Arrow record batches.
//!
//! The caller reads tokens from its XML source and feeds them, one at a time,
//! to a [`dispatcher::Dispatcher`]. The dispatcher checks every token against
//! the grammar of the document ([`machine`]), writes the fields it extracts
//! to the Arrow builders of a [`writer::ReleaseBatchWriter`], and hands out a
//! batch whenever [`writer::BATCH_SIZE`] releases are gathered, and once more
//! at the end of the document. Writing the batches to a file is the caller's
//! part.
//!
//! What is proved: the dispatcher follows the grammar exactly; the seven
//! columns hold the same number of rows at every step; every batch holds the
//! rows of the releases closed since the batch before it; and Arrow is never
//! asked for what makes it panic or refuse a batch. The proofs rest on what
//! [`columns`] states of Arrow's builders, which is taken from Arrow's source
//! and not proved.
pub mod columns;
pub mod dispatcher;
pub mod error;
pub mod grammar;
pub mod laws;
pub mod machine;
pub mod schema;
pub mod status;
pub mod text;
pub mod token;
pub mod writer;

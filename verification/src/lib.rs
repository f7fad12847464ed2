//! Planning core of a zip extractor. An [`extract::Extractor`] walks an
//! archive held in memory, in strict index order, and turns each member
//! into an [`plan::EntryPlan`]: the narration lines to print and the
//! filesystem commands to carry out. The caller performs the commands and
//! reports failures back; after a failure the walk aborts. The archive is
//! parsed by the `zip` crate behind a small trusted boundary
//! ([`zip_io`]); everything else, member classification, path handling,
//! ordering and the abort policy, is verified, and [`laws`] states the
//! ordering, safety and overwrite guarantees.

pub mod entry;
pub mod plan;
pub mod zip_io;
pub mod extract;
pub mod laws;

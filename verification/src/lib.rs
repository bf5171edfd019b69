//! Core logic of a per-owner "pet" record kept on a shared ledger.
//!
//! Each owner has exactly one record, holding a happiness score and the
//! tick at which the record was created.  The library provides the record
//! lifecycle (idempotent creation) and the "play" interaction: a pipeline
//! of checked arithmetic steps that either all succeed, yielding a new
//! record value and a token quantity to burn, or fail with a precise
//! error and leave the persisted state untouched.

pub mod record;
pub mod lifecycle;
pub mod play;

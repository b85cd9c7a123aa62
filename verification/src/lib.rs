//! A credential vault for a desktop application.
//!
//! Small secret records (a provider name, an API key, a few optional
//! settings) are kept in the operating system's credential store, one record
//! per slot. This crate holds everything about that which can be decided
//! without touching the store: where each slot lives, how a record is written
//! as text and read back, and what each answer of the store means for the
//! caller. The program around it performs the store calls.
//!
//! - [`slot`]: the slots and their addresses in the store.
//! - [`record`]: the records, and their stored form.
//! - [`json`]: the JSON codec that the stored form is written with.
//! - [`vault`]: save, load and clear, each cut at the call of the store.
//! - [`store`]: a model of the store, and the laws of the vault over it.
//! - [`command`]: the entries that the application shell calls.

pub mod command;
pub mod json;
pub mod record;
pub mod slot;
pub mod store;
pub mod vault;

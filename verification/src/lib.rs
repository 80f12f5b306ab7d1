//! Extraction of the value and token movements of one processed block that
//! touch a watched set of accounts or issued tokens, and the keyed "create"
//! rows that carry them into a relational store.
//!
//! `extract::map_blocks` reads a block against an `AddressRegistry` and
//! gives the `Transfers` of the block; `database::db_out` turns them into a
//! change set. Every contract is stated over the plain views of the records
//! (`records`), over the number that a byte string denotes (`amount`) and
//! over the text that renders it (`encoding`).

pub mod amount;
pub mod block;
pub mod database;
pub mod encoding;
pub mod events;
pub mod extract;
pub mod frensfile;
pub mod ordering;
pub mod records;
pub mod registry;
pub mod tokens;
pub mod traces;
pub mod value;

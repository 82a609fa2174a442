//! Reconciles a local music release with candidate descriptions from a remote
//! catalog and prepares the resolved entities for a relational store.
//!
//! The crate is organised leaves first. `models` holds the domain entities,
//! `rank` scores two track lists against each other and aligns them with the
//! help of `assignment`, `fetch` shapes the exchange with the catalog and
//! flattens its wire aggregates, `library` maps entities to tables,
//! statements and places on disk, `track` describes tagged audio files and
//! `template` renders entities into texts. `error` names the failures and
//! `text` holds small helpers on strings.
//!
//! Nothing in the crate reads a file, opens a connection or sends a request:
//! a caller does that and hands the library plain values.

pub mod assignment;
pub mod error;
pub mod fetch;
pub mod library;
pub mod models;
pub mod rank;
pub mod template;
pub mod text;
pub mod track;

//! Keeps a local collection of game add-ons in step with a remote catalog:
//! manifest records, the local inventory, the subscription ledger, the
//! reconciliation of local and remote state, the retry controller and the
//! install pipeline.

pub mod json;
pub mod text;
pub mod retry;
pub mod manifest;
pub mod catalog;
pub mod inventory;
pub mod ledger;
pub mod reconcile;
pub mod install;

//! A small claim-registration library.
//!
//! A claimant submits a name, a structural-database ("PDB") identifier and a
//! nine-digit university id; the library validates the submission, records a
//! one-to-one claim `university_id -> pdb_id`, refuses duplicate claims on
//! either side of the mapping, and answers lookups and an admin listing.
//!
//! The modules, leaf first:
//! - [`text`]: character-level helpers (uppercasing, string equality);
//! - [`validation`]: the field rules and the per-field error messages;
//! - [`access`]: classifying a secret path segment into User or Admin scope;
//! - [`store`]: the claim store and its two uniqueness invariants;
//! - [`workflow`]: the registration, lookup and admin-listing workflows.

pub mod text;
pub mod validation;
pub mod access;
pub mod store;
pub mod workflow;

//! Proof of attendance for trainer-led workouts.
//!
//! A trainer, or an administrator, opens a workout instance with a claim
//! window and the SHA-256 digest of a secret. After the workout the trainer
//! reveals the secret, and each attendee claims attendance with it: once per
//! user and instance, within the window, while the instance is open. An
//! accepted claim marks the user's attendance record and raises the user's
//! counter for the month of the workout by one.
//!
//! The operations work on records that the caller loads and stores; every
//! operation says in its contract which records it changes and how, and
//! leaves them as they were when it refuses. Where the records come from is
//! not this library's business, as long as each is kept under the address
//! that its identifying values give it.
//!
//! - [`state`]: the records.
//! - [`instructions`]: one operation per module, with the records it works
//!   on; [`workout_poap`] holds the operations as they are offered to
//!   callers, authorization included.
//! - [`commit_reveal`] and [`hash`]: the commitment to the secret and its
//!   verification.
//! - [`access`]: who may open and close.
//! - [`seeds`] and [`address`]: what identifies a record, and the address
//!   derived from it.
//! - [`ledger`]: all records taken together, and what holds of them whatever
//!   is requested in whatever order.
//! - [`errors`] and [`events`]: refusals and announcements.

pub mod access;
pub mod address;
pub mod commit_reveal;
pub mod errors;
pub mod events;
pub mod hash;
pub mod instructions;
pub mod ledger;
pub mod pubkey;
pub mod seeds;
pub mod state;
pub mod text;
pub mod workout_poap;

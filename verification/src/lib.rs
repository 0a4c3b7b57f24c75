//! An in-memory message relay: sealed, integrity-checked mailboxes behind
//! password sign-in, driven one command at a time.
//!
//! * `padlock` seals and opens message bodies and tags their plaintext.
//! * `directory` knows the users, `sessions` who is signed in, and `store`
//!   keeps the sealed messages.
//! * `clientinp` composes them into one state and executes commands on it.
//! * `guarantees` proves what holds of every sequence of commands.
//! * `primitives` holds the calls into other crates that are taken on trust.

pub mod clientinp;
pub mod directory;
pub mod errors;
pub mod guarantees;
pub mod inputs;
pub mod padlock;
pub mod primitives;
pub mod sessions;
pub mod store;

//! Relational model layer for an invoicing application: users, invoices,
//! attached binary proofs, per-user access permissions and invoice line
//! items, together with an in-memory store that enforces the schema's
//! primary-key and foreign-key rules, and a password-hashing helper used
//! on user creation.

pub mod hashing;
pub mod models;
pub mod store;

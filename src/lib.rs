//! A custodial vault program: one vault account per program, deposits of the
//! native coin and of a token tagged with a shielded destination address, and
//! withdrawals that only the vault's authority may make.
//!
//! The instruction handlers work on the accounts that a transaction supplies,
//! given as plain values, and say which transfer the runtime is to perform and
//! which event it is to record.
pub mod address;
pub mod vault;
pub mod laws;

//! Verified logic of a proof-of-personhood program: citizenship
//! applications judged by randomly drawn citizens, and a universal basic
//! income paid to randomly drawn citizens in epochs.
pub mod constants;
pub mod error;
pub mod event;
pub mod fees;
pub mod instructions;
pub mod laws;
pub mod selection;
pub mod state;
pub mod utils;

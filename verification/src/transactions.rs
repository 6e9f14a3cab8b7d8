//! Rules on transactions, and the making of them.

pub mod security;
pub mod transactions;
pub mod validator;

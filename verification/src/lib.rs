//! Decision logic of the carbonbond forum service: account rules, the
//! sign-up and chat transactions as state machines, request routing and
//! the lawyer registry lookups.

pub mod error;
pub mod password_hash;
pub mod account;
pub mod lawyerbc;
pub mod routing;
pub mod chat;
pub mod signup;
pub mod forum;

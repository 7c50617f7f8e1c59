//! The user service: nickname rules, the user model, the error codes that the
//! service answers with, the rules of its unit of work, and the decisions of its
//! two use cases (creating a user with a random nickname and finding a user by
//! the authentication it signed in with).

pub mod text;
pub mod kernel;
pub mod nickname;
pub mod user;
pub mod errors;
pub mod atomic;
pub mod uow;
pub mod generator;
pub mod service;
pub mod error_code;
pub mod grammar;
pub mod persistence;
pub mod config;

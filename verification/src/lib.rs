//! Core logic of the event-planning service: permission bit sets, request
//! validation, verification codes, session tokens, the in-memory user store,
//! the storage layout of uploaded files and the decisions the HTTP handlers
//! take, each with a contract that Verus checks.

pub mod text;
pub mod clock;
pub mod keyed;
pub mod permissions;
pub mod errors;
pub mod validation;
pub mod models;
pub mod generator;
pub mod verification;
pub mod token;
pub mod user;
pub mod storage;
pub mod polls;
pub mod access;
pub mod planning;
pub mod config;
pub mod events;
pub mod upload;
pub mod avatar;
pub mod register;
pub mod login;
pub mod api_doc;

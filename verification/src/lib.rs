//! An authentication core: a credential store with unique e-mail addresses,
//! signed bearer tokens with an expiry, and the decisions behind the
//! register, login, guest and current-user requests.

pub mod credentials;
pub mod error;
mod outside;
pub mod service;
pub mod store;
pub mod token;
pub mod user;

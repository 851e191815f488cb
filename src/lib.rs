//! Session-state core of an identity service: how a session token is
//! classified, how passwords are hashed and checked, and the transition logic
//! of register, login and logout across a session cache and a credential
//! store, with models of both stores and the laws that hold of whole runs.

pub mod credential;
pub mod error;
pub mod flow;
pub mod model;
pub mod password;
pub mod session;
pub mod state;

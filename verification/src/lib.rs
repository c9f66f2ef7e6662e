//! Session, sign-in and account-linking logic of the photo-posting web service.
//!
//! The web framework, the databases and the identity providers stay outside;
//! this crate holds the decisions taken between their calls.

pub mod api;
pub mod instant;
pub mod model;
pub mod oauth;
pub mod routes;
pub mod session;
pub mod session_id;
pub mod settings;
pub mod store;

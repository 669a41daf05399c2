//! Request and response shapes of the HTTP endpoints that surround the hub.
//! The handlers themselves live with the runtime; only the plain data comes
//! through here.

pub mod admin;
pub mod ai;
pub mod auth;
pub mod friend;
pub mod group;
pub mod im;
pub mod invite;
pub mod points;
pub mod promoter;
pub mod store;
pub mod user;

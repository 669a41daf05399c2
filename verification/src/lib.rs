//! Real-time message distribution hub for a chat backend, with the plain
//! data model that surrounds it.
//!
//! The hub tracks live connections and their outbound queues, binds
//! connections to user identities, answers heartbeats, and routes chat
//! messages either to a single recipient or to every member of a group,
//! always persisting a message before any delivery is attempted.

pub mod ai;
pub mod api;
pub mod audit_log;
pub mod auth;
pub mod chat;
pub mod coupon;
pub mod envelope;
pub mod file_storage;
pub mod gift;
pub mod hub;
pub mod ids;
pub mod invite;
pub mod jwt;
pub mod lucky_card;
pub mod point_shop;
pub mod promoter;
pub mod registry;
pub mod sessions;
pub mod textfmt;
pub mod token;
pub mod user;
pub mod verification;
pub mod wallet_tx;

//! Invitation tokens that let an administrator hand out account creation on a
//! Komga server: the data model, expiry, validation of a redemption request, the
//! resumable two-step provisioning saga, and the bearer check for admin routes.

pub mod auth;
pub mod invite;
pub mod komga;
pub mod lifecycle;
pub mod service;
pub mod text;
pub mod world;

//! Server-side OpenID Connect login for a single-page application: the
//! per-session flow store, the login/callback/logout coordinator and the access guard
//! in front of the API routes, together with the small rules applied to
//! blood-pressure readings.
pub mod flow;
pub mod access;
pub mod guarantees;
pub mod readings;
pub mod reading_rows;
pub mod session;

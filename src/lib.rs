//! A loopback redirect bridge for OAuth2 implicit-grant sign-in.
//!
//! The verified core decides how each request to the local listener is
//! answered, when the captured credential is handed on, and when the
//! listener stops; the hosting program performs the socket work.

pub mod listener;
pub mod page;
pub mod router;
pub mod session;
pub mod token;

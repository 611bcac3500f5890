//! Page-rendering primitives over one long-lived browser session: the
//! tab lifecycle that every request walks through, the extraction results it
//! produces, and the request-level checks around it.

pub mod auth;
pub mod extract;
pub mod fcm;
pub mod images;
pub mod media;
pub mod session;
pub mod text;

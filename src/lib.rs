//! Request routing and reply decisions for a small server that renders one
//! fixed HTML page and serves two static directories.
pub mod path;
pub mod route;
pub mod reply;
pub mod laws;

//! Session and authentication engine of the elite dashboard backend: a
//! Discord OAuth2 login flow, a CSRF-bound server-side session store,
//! signed identity tokens and the role gates that protect routes.

pub mod constants;
pub mod model;
pub mod error;
pub mod store;
pub mod session;
pub mod laws;
pub mod config;
pub mod jwt;
pub mod discord;
pub mod ctx;
pub mod flow;

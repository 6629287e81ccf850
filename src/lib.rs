//! Core of a server-rendered quiz site: password credentials, an in-memory
//! session store, the register/login/logout/profile decisions, and the
//! grader that scores a submitted quiz.

pub mod credentials;
pub mod ids;
pub mod model;
pub mod session;
pub mod grader;
pub mod auth;
pub mod config;
pub mod quiz;
pub mod search;

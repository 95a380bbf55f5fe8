//! Request-handling core of a package-registry API server: the outcome of
//! blocking work that was moved off the request scheduler, pagination of
//! ordered queries, and the plain decisions that the keyword listing and the
//! outgoing mail make around them.

pub mod controllers;
pub mod decimal;
pub mod email;
pub mod mailer;
pub mod paginated;
pub mod pagination;
pub mod pagination_laws;
pub mod tasks;

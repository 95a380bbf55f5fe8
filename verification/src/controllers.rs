//! What the request handlers decide before and after the database is asked.

pub mod keyword;

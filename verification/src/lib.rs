//! The decisions behind a desktop switcher for AI providers: how one HTTP exchange is
//! captured as a record, and how the configuration and log databases are brought up.

pub mod body;
pub mod call_laws;
pub mod capture;
pub mod capture_laws;
pub mod database;
pub mod error;
pub mod header_laws;
pub mod headers;
pub mod media;
pub mod record_laws;
pub mod request;
pub mod text;
pub mod text_laws;

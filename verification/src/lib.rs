//! The verified core of lake, a minimal file sharing service: which uploads and
//! downloads are let through, what is recorded of them, and what is answered.

pub mod clock;
pub mod config;
pub mod course;
pub mod db;
pub mod error;
pub mod headers;
pub mod laws;
pub mod promises;
pub mod rules;
pub mod service;
pub mod share;
pub mod sql;
pub mod tables;
pub mod text;

//! A verified core for a small user-management backend: a token service that
//! issues and verifies signed, time-bounded identity tokens, and a validated
//! request-extraction pipeline (decode, then validate) with pagination.

pub mod common;
pub mod config;
pub mod crypt;
pub mod crypto;
pub mod date;
pub mod dto;
pub mod entity;
pub mod enumeration;
pub mod error;
pub mod extract;
pub mod handlers;
pub mod latency;
pub mod middleware;
pub mod response;
pub mod server;
pub mod strutil;
pub mod subject;
pub mod token;
pub mod validation;

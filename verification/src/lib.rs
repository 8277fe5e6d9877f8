//! Verified core of a desktop mail client that signs in to Google over OAuth:
//! the redirect and callback rules of the local sign-in server, the query
//! parameters of the callback, the token records kept per account, the Gmail
//! paging and batching rules, and the persisted configuration.
#![allow(non_snake_case)]
#![allow(non_camel_case_types)]

pub mod text;
pub mod provider;
pub mod strmap;
pub mod params;
pub mod callback;
pub mod google_types;
pub mod gmail;
pub mod tokens;
pub mod config;
pub mod client;
pub mod signin;
pub mod ports;

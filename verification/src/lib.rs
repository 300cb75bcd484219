//! Verified core of the colang language-learning service: text rules,
//! dictionary normalisation, access-control filters, tokens and
//! configuration.

pub mod text;
pub mod decimal;
pub mod config;
pub mod auth;
pub mod wallet;
pub mod avatar;
pub mod models;
pub mod oauth;
pub mod error;
pub mod api;
pub mod cli;
pub mod wordgen;
pub mod tools;
pub mod words;
pub mod dict;
pub mod dict_rows;
pub mod dict_laws;
pub mod vocab;
pub mod permission;

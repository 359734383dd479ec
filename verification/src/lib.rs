//! Request matchers, request and response models and configuration for an
//! HTTP mock server, with their behaviour stated as Verus contracts.

pub mod config;
pub mod text;
pub mod base64;


pub mod string_map;
pub mod bindings;
pub mod query_string;
pub mod http_types;
pub mod matchers;
pub mod mock;
pub mod laws;

//! A toolchain for Luau projects. Its core is a bridge that carries calls
//! from scripts to module workers: long-lived processes that answer
//! requests, one JSON object per line. This crate holds the rules of that
//! bridge and of the tools around it; reading files, serving HTTP and
//! starting processes is left to the program that uses it.

pub mod bridge;
pub mod builder;
pub mod compat;
pub mod config;
pub mod error;
pub mod github;
pub mod http;
pub mod json;
pub mod lock;
pub mod manager;
pub mod package;
pub mod paths;
pub mod project;
pub mod protocol;
pub mod runtime;
pub mod strmap;
pub mod text;
pub mod token;
pub mod wire;

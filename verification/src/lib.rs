//! A command-line client library for Confluence: page references, content conversion
//! between markdown and storage markup, a small virtual-filesystem shell, profile
//! resolution and the command logic that sits between the user and the REST API.
use vstd::prelude::*;

pub mod domain;
pub mod error;
pub mod text;
pub mod convert;
pub mod application;
pub mod config;
pub mod profile_manager;
pub mod runtime_loader;
pub mod render;
pub mod cli;
pub mod shell;
pub mod http;

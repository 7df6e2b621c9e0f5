//! The command logic between the user interface and the Confluence API.
pub mod models;
pub mod ports;
pub mod profiles;
pub mod runtime;
pub mod pages;
pub mod attachments;
pub mod comments;
pub mod properties;
pub mod vfs;
pub mod site;

//! Resolution of versioned distribution descriptors into installable
//! versions, and the decisions of fetching their files and launching them.

pub mod acquire;
pub mod arguments;
pub mod context;
pub mod descriptor;
pub mod error;
pub mod installer;
pub mod library;
pub mod manifest;
pub mod resolve;
pub mod rule;
pub mod template;
pub mod text;
pub mod version;

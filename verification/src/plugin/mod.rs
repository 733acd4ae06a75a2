pub mod api;
pub mod commands;
pub mod manifest;

pub mod app;
pub mod config;
pub mod fs;
pub mod fuzzy;
pub mod git;
pub mod keys;
pub mod navigation;
pub mod paths;
pub mod preview;
pub mod plugin;
pub mod project;
pub mod search;
pub mod sort;
pub mod text;
pub mod ui;

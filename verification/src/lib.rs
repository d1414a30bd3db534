pub mod artifact;
pub mod branches;
pub mod cli;
pub mod commands;
pub mod config;
pub mod detect;
pub mod conv;
pub mod gh;
pub mod logger;
pub mod paths;
pub mod render;
pub mod style;
pub mod suggest;
pub mod templates;
pub mod text;

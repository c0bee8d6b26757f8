//! Building blocks shared by the command-line front end.

pub mod app_config;
pub mod docker_compose;
pub mod failure;
pub mod general;
pub mod name_map;
pub mod path;
pub mod text;

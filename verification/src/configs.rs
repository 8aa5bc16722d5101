pub mod global_config;
pub mod project_config;

pub mod commands;
pub mod resolver;

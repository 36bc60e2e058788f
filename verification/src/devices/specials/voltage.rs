pub mod commands;
pub mod model;
pub mod resolver;
pub mod service;

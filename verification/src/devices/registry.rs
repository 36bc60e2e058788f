pub mod model;
pub mod resolver;
pub mod service;

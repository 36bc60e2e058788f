pub mod model;
pub mod resolver;

pub mod resolver;

pub mod device;
pub mod resolver;

pub mod light;
pub mod shutter;
pub mod switch;

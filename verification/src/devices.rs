pub mod kinds;
pub mod light;
pub mod registry;
pub mod shutter;
pub mod specials;
pub mod switch;

pub mod voltage;

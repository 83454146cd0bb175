pub mod text;
pub mod device;
pub mod session;
pub mod search;
pub mod sweep;
pub mod settings;
pub mod gpus;
pub mod curve;
pub mod monitor;

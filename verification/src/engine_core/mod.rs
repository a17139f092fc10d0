pub mod engine;
pub mod instance;
pub mod window;
pub mod window_config;

pub mod model;
pub mod wire;
pub mod store;
pub mod service;

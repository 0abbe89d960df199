pub mod handlers;
pub mod laws;
pub mod quote;
pub mod status;
pub mod store;

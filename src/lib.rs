pub mod event;
pub mod ids;
pub mod laws;

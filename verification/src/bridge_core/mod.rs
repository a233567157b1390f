pub mod buffer;
pub mod monitor;
pub mod router;

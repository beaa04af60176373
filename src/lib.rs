pub mod key;
pub mod state;
pub mod lifecycle;
pub mod pool;
pub mod laws;
pub mod seeds;

pub mod events;
pub mod keys;
pub mod state;

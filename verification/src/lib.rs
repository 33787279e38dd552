pub mod events;
pub mod lifecycle;

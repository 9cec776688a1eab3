pub mod credentials;
pub mod poll;
pub mod reading;
pub mod render;

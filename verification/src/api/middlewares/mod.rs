pub mod sessions;
pub mod wrappers;

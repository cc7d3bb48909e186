pub mod path;
pub mod timestamp;
pub mod trash;
pub mod environment;

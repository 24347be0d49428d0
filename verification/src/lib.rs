pub mod errors;
pub mod identity;
pub mod project;
pub mod settlement;
pub mod status;
pub mod store;

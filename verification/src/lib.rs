pub mod errors;
pub mod text;
pub mod transfer_actor;

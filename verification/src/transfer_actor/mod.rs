pub mod history;
pub mod payment;
pub mod setup;
pub mod validator;

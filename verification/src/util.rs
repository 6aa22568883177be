pub mod authorization;
pub mod cookies;
pub mod globals;
pub mod response;
pub mod strings;
pub mod validator;

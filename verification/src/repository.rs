pub mod refresh_token;
pub mod user;

pub mod login;
pub mod oauth;
pub mod oauth_util;
pub mod profile_lookup;
pub mod refresh_token;
pub mod register;
pub mod users;
pub mod users_util;

pub mod jwt;
pub mod models;
pub mod oauth;
pub mod repository;
pub mod routes;
pub mod util;

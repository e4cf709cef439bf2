pub mod jwt;
pub mod password;

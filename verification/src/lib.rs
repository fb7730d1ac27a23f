pub mod clock;
pub mod constants;
pub mod db;
pub mod jwt;
pub mod middlewares;
pub mod models;
pub mod password;
pub mod referral_code;

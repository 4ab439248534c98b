pub mod account;
pub mod admin;
pub mod auth;
pub mod ceremony;
pub mod clock;
pub mod config;
pub mod db;
pub mod email;
pub mod final_round;
pub mod handlers;
pub mod idtoken;
pub mod json;
mod random;
pub mod text;
pub mod wheel;
pub mod laws;
pub mod letters;
pub mod logging;
pub mod manager;
pub mod metrics;
pub mod oauth;
pub mod passkey;
pub mod passkey_records;
pub mod rate_limit;
pub mod session;
pub mod state;
pub mod timers;

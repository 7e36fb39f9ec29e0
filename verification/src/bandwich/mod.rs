pub mod auth;
pub mod bandwich;

pub mod access;
pub mod auth;
pub mod home;
pub mod media;
pub mod setting;

pub mod api;
pub mod web;

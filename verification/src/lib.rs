pub mod actions;
pub mod api;
pub mod collections;
pub mod db;
pub mod error;
pub mod events;
pub mod ids;
pub mod json;
pub mod model;
pub mod security;
pub mod server;
pub mod sync;
pub mod text;

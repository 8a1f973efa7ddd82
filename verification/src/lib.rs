pub mod article;
pub mod auth;
pub mod catcher;
pub mod clock;
pub mod config;
pub mod data_types;
pub mod db;
pub mod db_service;
pub mod digest;
pub mod ids;
pub mod state;
pub mod text;
pub mod types;

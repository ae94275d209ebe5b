pub mod text;
pub mod markdown;
pub mod db;
pub mod api;

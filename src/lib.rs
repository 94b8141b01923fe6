pub mod book_search;
pub mod config;
pub mod health;
pub mod lang;
pub mod model;
pub mod parse;
pub mod projection;
pub mod queries;
pub mod questions;
pub mod request;
pub mod text;
pub mod value;

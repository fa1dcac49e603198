pub mod address;
pub mod database;
pub mod encoding;
pub mod expire;
pub mod filesystem;
pub mod form;
pub mod history;
pub mod laws;
pub mod outside;
pub mod post;
pub mod promises;
pub mod reply;
pub mod server;
pub mod settings;
pub mod table;
pub mod text;
pub mod time;
pub mod token;

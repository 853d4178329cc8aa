pub mod albums;
pub mod cache;
pub mod client;
pub mod contexts;
pub mod event;
pub mod event_loop;
pub mod fetches;
pub mod handler;
pub mod listing;
pub mod model;
pub mod passes;
pub mod positions;
pub mod request;
pub mod state;
pub mod text;
pub mod watcher;

//! A terminal chat client's core: the chat session's decisions, the message
//! store, and the terminal graphics protocol used to draw emotes.

pub mod text;
pub mod store;
pub mod graphics;
pub mod images;
pub mod cache;
pub mod frames;
pub mod session;
pub mod state;
pub mod config;
pub mod driver;
pub mod probe;
pub mod textutil;
pub mod layout;
pub mod widgets;
pub mod decode;

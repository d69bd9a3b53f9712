//! Core of a server-rendered to-do list: the table of items, the HTML
//! fragments that show it, and the shaping of failures into responses.

pub mod app;
pub mod errorresponse;
pub mod helper;
pub mod response;
pub mod state;
pub mod store;
pub mod text;
